//! Recovering the cases in which one side of a swap is gone.

use vstd::prelude::*;
use crate::answer::{answers, closes, says_directly};
use crate::contract::{
    BitcoinTerms, after_fee, amount_after_fee, bitcoin_terms, known_transaction_reading,
    leg_verifier, required_reading, required_string, terms_reading, verifier_for_leg,
    verify_known_bitcoin_transaction,
};
use crate::control::counted;
use crate::journey::DoomsdayCase;
use crate::json::{
    Json, JsonObject, JsonView, items_of, items_view, lemma_items_view, member, member_text,
    name_views, no_members, number_doc, text_doc, texts_doc,
};
use crate::lifecycle::{
    chain_leg_process_proof, leg_proof_doc, liquid_lifecycle_event_ids, liquid_lifecycle_reading,
    outpoint_reading, status_outpoint,
};
use crate::liquid::{lightning_terminal, lightning_terminal_doc};
use crate::machine::{
    Action, ActionView, CloseCheck, CloseCheckView, LightningView, Reply, ReplyView, Task,
    blocks_until, count_blocks_until, count_rounds, height_reading, is_presigned_refund,
    is_wallet_claim, lemma_milestone, lemma_ranks_rise, more_rounds, narrow_height, perform,
    perform_with, perform_with_four, perform_with_three, perform_with_two, wrong_reply,
    wrong_reply_text,
};
use crate::payment::{finalize_invoice_unpaid, removal_reading};
use crate::planner::{
    Plan, PlanView, refund_standing, reverse_standing, show_refund, show_reverse,
};
use crate::record::{Event, RecordKinds};
use crate::terminal::LightningTerminalCheck;
use crate::text::{decimal, decimal_text, join, maybe, maybe_str, same_text};

verus! {

/// An array without texts.
fn no_texts() -> (document: Json)
    ensures
        document@ == texts_doc(seq![]),
{
    let texts: Vec<&str> = Vec::new();
    assert(name_views(texts@) =~= seq![]);
    Json::texts(&texts)
}

/// An array of one text.
fn one_text(text: &str) -> (document: Json)
    ensures
        document@ == texts_doc(seq![text@]),
{
    let texts: Vec<&str> = vec![text];
    assert(name_views(texts@) =~= seq![text@]);
    Json::texts(&texts)
}

/// A number of rounds, up to the largest that is counted.
pub open spec fn rounds_of(value: u64) -> u32 {
    if value > u32::MAX {
        u32::MAX
    } else {
        value as u32
    }
}

fn rounds_in(value: u64) -> (rounds: u32)
    ensures
        rounds == rounds_of(value),
{
    if value > 0xffff_ffff {
        u32::MAX
    } else {
        value as u32
    }
}

/// The funding of the source leg: its bytes and the output that funds the contract.
pub open spec fn source_funding_reading(contract: JsonView, unbounded: Seq<char>) -> Result<
    (Seq<char>, u32),
    Seq<char>,
> {
    match leg_verifier(contract, "source"@) {
        None => Err("funded contract has no "@ + "source"@ + " verifier"@),
        Some(verifier) => match required_reading(verifier, "funding_transaction"@) {
            Err(message) => Err(message),
            Ok(hex) => match counted(verifier, "output_index"@) {
                Some(index) if index <= u32::MAX => Ok((hex, index as u32)),
                _ => Err(unbounded),
            },
        },
    }
}

/// The funding of the source leg: it can be had exactly where every part that it rests on can, and
/// each part of it is the one that its name says.
pub proof fn law_source_funding_is_read_from_its_parts(contract: JsonView, unbounded: Seq<char>)
    ensures
        ({
            let read = source_funding_reading(contract, unbounded);
            let verifier = leg_verifier(contract, "source"@)->0;
            let index = counted(verifier, "output_index"@)->0;
            let given = read->Ok_0;
            &&& read is Ok <==> {
                &&& leg_verifier(contract, "source"@) is Some
                &&& required_reading(verifier, "funding_transaction"@) is Ok
                &&& counted(verifier, "output_index"@) is Some
                &&& index <= u32::MAX
            }
            &&& read is Ok ==> {
                &&& given.0 == required_reading(verifier, "funding_transaction"@)->Ok_0
                &&& given.1 == index as u32
            }
        }),
{
}

/// The funding of the source leg: its bytes and the output that funds the contract.
pub fn source_funding(contract: &Json, unbounded: &str) -> (funding: Result<(String, u32), String>)
    ensures
        (match funding {
            Ok((hex, index)) => Ok((hex@, index)),
            Err(message) => Err(message@),
        }) == source_funding_reading(contract@, unbounded@),
{
    let verifier: &JsonObject = verifier_for_leg(contract, "source")?;
    let hex: &str = required_string(verifier, "funding_transaction")?;
    match verifier.u64_at("output_index") {
        Some(index) if index <= 0xffff_ffff => Ok((hex.to_owned(), index as u32)),
        _ => Err(unbounded.to_owned()),
    }
}

/// Whether a list of invoices still has one of a payment.
pub open spec fn lists_hash(listing: JsonView, hash: Seq<char>) -> bool {
    match items_of(member(listing, "invoices"@)) {
        None => false,
        Some(invoices) => exists|i: int|
            0 <= i < invoices.len() && member_text(#[trigger] invoices[i], "payment_hash"@) == Some(
                hash,
            ),
    }
}

fn some_invoice(listing: &Json, hash: &str) -> (found: bool)
    ensures
        found == lists_hash(listing@, hash@),
{
    let invoices: &Vec<Json> = match listing.get("invoices") {
        Some(value) => match value.as_array() {
            Some(invoices) => invoices,
            None => {
                return false;
            },
        },
        None => {
            return false;
        },
    };
    proof {
        lemma_items_view(invoices@);
    }
    let mut i: usize = 0;
    while i < invoices.len()
        invariant
            i <= invoices@.len(),
            items_of(member(listing@, "invoices"@)) == Some(items_view(invoices@)),
            items_view(invoices@).len() == invoices@.len(),
            forall|j: int|
                0 <= j < invoices@.len() ==> #[trigger] items_view(invoices@)[j] == invoices@[j]@,
            forall|j: int|
                0 <= j < i ==> member_text(#[trigger] items_view(invoices@)[j], "payment_hash"@)
                    != Some(hash@),
        decreases invoices@.len() - i,
    {
        assert(items_view(invoices@)[i as int] == invoices@[i as int]@);
        if invoices[i].says("payment_hash", hash) {
            return true;
        }
        i = i + 1;
    }
    false
}

/// The lifecycle of a recovered Liquid case.
pub open spec fn recovered_lifecycle_reading(
    records: Seq<Event>,
    kinds: RecordKinds,
    offering_id: Option<Seq<char>>,
    close_id: Option<Seq<char>>,
) -> Result<JsonView, Seq<char>> {
    match offering_id {
        None => Err("Liquid doomsday checkpoint has no Offering ID"@),
        Some(offering_id) => liquid_lifecycle_reading(records, kinds, offering_id, close_id),
    }
}

/// The lifecycle of a recovered Liquid case: it can be had exactly where every part that it rests
/// on can, and each part of it is the one that its name says.
pub proof fn law_recovered_lifecycle_is_read_from_its_parts(
    records: Seq<Event>,
    kinds: RecordKinds,
    offering_id: Option<Seq<char>>,
    close_id: Option<Seq<char>>,
)
    ensures
        ({
            let read = recovered_lifecycle_reading(records, kinds, offering_id, close_id);
            let read_offering_id = offering_id->0;
            let given = read->Ok_0;
            &&& read is Ok <==> {
                &&& offering_id is Some
                &&& liquid_lifecycle_reading(records, kinds, read_offering_id, close_id) is Ok
            }
            &&& read is Ok ==> {
                &&& given == liquid_lifecycle_reading(records, kinds, read_offering_id, close_id)->Ok_0
            }
        }),
{
}

fn recovered_lifecycle(
    records: &Vec<Event>,
    kinds: RecordKinds,
    offering_id: &Option<String>,
    close_id: Option<&str>,
) -> (ids: Result<Json, String>)
    ensures
        crate::control::told_json(ids) == recovered_lifecycle_reading(
            records@,
            kinds,
            maybe(*offering_id),
            maybe_str(close_id),
        ),
{
    match offering_id {
        None => Err("Liquid doomsday checkpoint has no Offering ID".to_owned()),
        Some(offering_id) => liquid_lifecycle_event_ids(
            records,
            kinds,
            offering_id.as_str(),
            close_id,
        ),
    }
}

/// The phases of the recovery of a submarine case, in their order.
#[derive(Clone, Copy, Debug, PartialEq, Eq, Structural)]
pub enum RefundRecoveryPhase {
    DeriveFundingId,
    RequireFundingKnown,
    MineFunding,
    ReadConfirmation,
    FinalizeInvoice,
    ReadHeight,
    PlanBeforeTimeout,
    MineTimeout,
    ReadTimeoutHeight,
    PlanRefund,
    BuildRequest,
    BroadcastRefund,
    RecordBroadcast,
    MineConfirmations,
    VerifyOnBothNodes,
    CheckInvoices,
    Finished,
}

impl RefundRecoveryPhase {
    /// The place of the phase in their order.
    pub open spec fn rank(self) -> int {
        match self {
            RefundRecoveryPhase::DeriveFundingId => 0,
            RefundRecoveryPhase::RequireFundingKnown => 1,
            RefundRecoveryPhase::MineFunding => 2,
            RefundRecoveryPhase::ReadConfirmation => 3,
            RefundRecoveryPhase::FinalizeInvoice => 4,
            RefundRecoveryPhase::ReadHeight => 5,
            RefundRecoveryPhase::PlanBeforeTimeout => 6,
            RefundRecoveryPhase::MineTimeout => 7,
            RefundRecoveryPhase::ReadTimeoutHeight => 8,
            RefundRecoveryPhase::PlanRefund => 9,
            RefundRecoveryPhase::BuildRequest => 10,
            RefundRecoveryPhase::BroadcastRefund => 11,
            RefundRecoveryPhase::RecordBroadcast => 12,
            RefundRecoveryPhase::MineConfirmations => 13,
            RefundRecoveryPhase::VerifyOnBothNodes => 14,
            RefundRecoveryPhase::CheckInvoices => 15,
            RefundRecoveryPhase::Finished => 16,
        }
    }
}

/// The refund of a submarine swap whose provider is gone, signed before the swap began.
pub struct RefundRecoveryRun {
    pub phase: RefundRecoveryPhase,
    pub case: DoomsdayCase,
    pub confirmations: u64,
    pub contract: Json,
    pub provider_pubkey: String,
    pub order_id: String,
    pub controller_audit: Json,
    pub funding_id: String,
    pub funding_hex: String,
    pub funding_output: u32,
    pub funding_confirmation_height: u32,
    pub payment_hash: String,
    pub refund_lock_height: u32,
    pub height: u32,
    pub timeout_height: u32,
    pub effect_id: String,
    pub refund_hex: String,
    pub refund_id: String,
}

/// The refund of a submarine swap whose provider is gone, signed before the swap began.
#[verifier::ext_equal]
pub struct RefundRecoveryRunView {
    pub phase: RefundRecoveryPhase,
    pub case: DoomsdayCase,
    pub confirmations: u64,
    pub contract: JsonView,
    pub provider_pubkey: Seq<char>,
    pub order_id: Seq<char>,
    pub controller_audit: JsonView,
    pub funding_id: Seq<char>,
    pub funding_hex: Seq<char>,
    pub funding_output: u32,
    pub funding_confirmation_height: u32,
    pub payment_hash: Seq<char>,
    pub refund_lock_height: u32,
    pub height: u32,
    pub timeout_height: u32,
    pub effect_id: Seq<char>,
    pub refund_hex: Seq<char>,
    pub refund_id: Seq<char>,
}

impl View for RefundRecoveryRun {
    type V = RefundRecoveryRunView;

    open spec fn view(&self) -> RefundRecoveryRunView {
        RefundRecoveryRunView {
            phase: self.phase,
            case: self.case,
            confirmations: self.confirmations,
            contract: self.contract@,
            provider_pubkey: self.provider_pubkey@,
            order_id: self.order_id@,
            controller_audit: self.controller_audit@,
            funding_id: self.funding_id@,
            funding_hex: self.funding_hex@,
            funding_output: self.funding_output,
            funding_confirmation_height: self.funding_confirmation_height,
            payment_hash: self.payment_hash@,
            refund_lock_height: self.refund_lock_height,
            height: self.height,
            timeout_height: self.timeout_height,
            effect_id: self.effect_id@,
            refund_hex: self.refund_hex@,
            refund_id: self.refund_id@,
        }
    }
}

/// What the recovery of a submarine case asks for next.
pub open spec fn refund_recovery_action(run: RefundRecoveryRunView) -> ActionView {
    match run.phase {
        RefundRecoveryPhase::DeriveFundingId => ActionView::Perform(Task::DeriveFundingId, seq![]),
        RefundRecoveryPhase::RequireFundingKnown => ActionView::Perform(
            Task::RequireKnownTransaction,
            seq!["doomsday-funding"@, run.funding_id, run.funding_hex],
        ),
        RefundRecoveryPhase::MineFunding => ActionView::Mine("bitcoin"@, 1, "doomsday-funding"@),
        RefundRecoveryPhase::ReadConfirmation => ActionView::Perform(
            Task::ReadConfirmationHeight,
            seq!["doomsday-funding-confirmation"@, run.funding_id],
        ),
        RefundRecoveryPhase::FinalizeInvoice => ActionView::Perform(
            Task::FinalizeInvoice,
            seq![run.case.invoice_text(), run.payment_hash],
        ),
        RefundRecoveryPhase::ReadHeight => ActionView::Perform(
            Task::ReadHeight,
            seq!["doomsday-before-timeout"@],
        ),
        RefundRecoveryPhase::PlanBeforeTimeout => ActionView::Plan(
            refund_standing(run.height, run.funding_confirmation_height, false),
        ),
        RefundRecoveryPhase::MineTimeout => ActionView::Mine(
            "bitcoin"@,
            blocks_until(run.refund_lock_height, run.height),
            "doomsday-refund-timeout"@,
        ),
        RefundRecoveryPhase::ReadTimeoutHeight => ActionView::Perform(
            Task::ReadHeight,
            seq!["doomsday-timeout"@],
        ),
        RefundRecoveryPhase::PlanRefund => ActionView::Plan(
            refund_standing(run.timeout_height, run.funding_confirmation_height, false),
        ),
        RefundRecoveryPhase::BuildRequest => ActionView::Perform(
            Task::BuildKeylessRequest,
            seq![run.effect_id],
        ),
        RefundRecoveryPhase::BroadcastRefund => ActionView::Perform(
            Task::BroadcastBitcoin,
            seq!["doomsday-presigned-refund"@, run.refund_hex, run.refund_id],
        ),
        RefundRecoveryPhase::RecordBroadcast => ActionView::Perform(
            Task::RecordEsploraEffect,
            seq![run.refund_id, run.refund_hex],
        ),
        RefundRecoveryPhase::MineConfirmations => ActionView::Mine(
            "bitcoin"@,
            run.confirmations,
            "doomsday-refund-confirmation"@,
        ),
        RefundRecoveryPhase::VerifyOnBothNodes => ActionView::Perform(
            Task::VerifyOnBothNodes,
            seq![run.funding_id, decimal(run.funding_output as nat), run.refund_id, run.refund_hex],
        ),
        RefundRecoveryPhase::CheckInvoices => ActionView::Perform(
            Task::ListInvoices,
            seq!["doomsday-terminal-invoice"@],
        ),
        RefundRecoveryPhase::Finished => ActionView::Finish,
    }
}

/// Where a reply takes the recovery of a submarine case.
pub open spec fn refund_recovery_step(run: RefundRecoveryRunView, reply: ReplyView) -> Result<
    RefundRecoveryRunView,
    Seq<char>,
> {
    match (run.phase, reply) {
        (RefundRecoveryPhase::DeriveFundingId, ReplyView::Texts(texts)) => {
            if texts.len() != 1 {
                Err(wrong_reply())
            } else {
                match source_funding_reading(
                    run.contract,
                    "doomsday funding output is not bounded"@,
                ) {
                    Err(message) => Err(message),
                    Ok(funding) => Ok(
                        RefundRecoveryRunView {
                            phase: RefundRecoveryPhase::RequireFundingKnown,
                            funding_id: texts[0],
                            funding_hex: funding.0,
                            funding_output: funding.1,
                            ..run
                        },
                    ),
                }
            }
        },
        (RefundRecoveryPhase::RequireFundingKnown, ReplyView::Document(Some(report))) => match known_transaction_reading(
            report,
            run.funding_id,
            Some(run.funding_hex),
        ) {
            Err(message) => Err(message),
            Ok(known) => Ok(
                RefundRecoveryRunView { phase: RefundRecoveryPhase::MineFunding, ..run },
            ),
        },
        (RefundRecoveryPhase::MineFunding, ReplyView::Done) => Ok(
            RefundRecoveryRunView { phase: RefundRecoveryPhase::ReadConfirmation, ..run },
        ),
        (RefundRecoveryPhase::ReadConfirmation, ReplyView::Number(value)) => match height_reading(
            value,
            "funding confirmation height exceeds u32"@,
        ) {
            Err(message) => Err(message),
            Ok(height) => match member_text(run.contract, "payment_hash"@) {
                None => Err("doomsday contract has no payment hash"@),
                Some(hash) => Ok(
                    RefundRecoveryRunView {
                        phase: RefundRecoveryPhase::FinalizeInvoice,
                        payment_hash: hash,
                        funding_confirmation_height: height,
                        ..run
                    },
                ),
            },
        },
        (RefundRecoveryPhase::FinalizeInvoice, ReplyView::Removal { deleted, remaining }) => match removal_reading(
            deleted,
            remaining,
            run.payment_hash,
        ) {
            Err(message) => Err(message),
            Ok(removed) => match terms_reading(run.contract, "source"@) {
                Err(message) => Err(message),
                Ok(terms) => Ok(
                    RefundRecoveryRunView {
                        phase: RefundRecoveryPhase::ReadHeight,
                        refund_lock_height: terms.refund_lock_height,
                        ..run
                    },
                ),
            },
        },
        (RefundRecoveryPhase::ReadHeight, ReplyView::Number(value)) => match height_reading(
            value,
            "Bitcoin chain height exceeds u32"@,
        ) {
            Err(message) => Err(message),
            Ok(height) => Ok(
                RefundRecoveryRunView {
                    phase: RefundRecoveryPhase::PlanBeforeTimeout,
                    height: height,
                    ..run
                },
            ),
        },
        (RefundRecoveryPhase::PlanBeforeTimeout, ReplyView::Planned(planned)) => match planned {
            Err(message) => Err("doomsday planner rejected local observations: "@ + message),
            Ok(PlanView::WaitForTimeout) => Ok(
                RefundRecoveryRunView { phase: RefundRecoveryPhase::MineTimeout, ..run },
            ),
            Ok(_) => Err("doomsday planner authorized an early refund broadcast"@),
        },
        (RefundRecoveryPhase::MineTimeout, ReplyView::Done) => Ok(
            RefundRecoveryRunView { phase: RefundRecoveryPhase::ReadTimeoutHeight, ..run },
        ),
        (RefundRecoveryPhase::ReadTimeoutHeight, ReplyView::Number(value)) => match height_reading(
            value,
            "Bitcoin chain height exceeds u32"@,
        ) {
            Err(message) => Err(message),
            Ok(height) => {
                if height < run.refund_lock_height {
                    Err("doomsday recovery did not reach the committed refund height"@)
                } else {
                    Ok(
                        RefundRecoveryRunView {
                            phase: RefundRecoveryPhase::PlanRefund,
                            timeout_height: height,
                            ..run
                        },
                    )
                }
            },
        },
        (RefundRecoveryPhase::PlanRefund, ReplyView::Planned(planned)) => match planned {
            Err(message) => Err("doomsday planner rejected local observations: "@ + message),
            Ok(PlanView::BroadcastPresigned(effect_id)) => Ok(
                RefundRecoveryRunView { phase: RefundRecoveryPhase::BuildRequest, effect_id, ..run },
            ),
            Ok(_) => Err("doomsday planner did not authorize the pre-signed refund"@),
        },
        (RefundRecoveryPhase::BuildRequest, ReplyView::Texts(texts)) => {
            if texts.len() != 2 {
                Err(wrong_reply())
            } else {
                Ok(
                    RefundRecoveryRunView {
                        phase: RefundRecoveryPhase::BroadcastRefund,
                        refund_hex: texts[0],
                        refund_id: texts[1],
                        ..run
                    },
                )
            }
        },
        (RefundRecoveryPhase::BuildRequest, ReplyView::Done) => Err(
            "doomsday planner selected an unbound exit package"@,
        ),
        (RefundRecoveryPhase::BroadcastRefund, ReplyView::Done) => Ok(
            RefundRecoveryRunView { phase: RefundRecoveryPhase::RecordBroadcast, ..run },
        ),
        (RefundRecoveryPhase::RecordBroadcast, ReplyView::Done) => Ok(
            RefundRecoveryRunView { phase: RefundRecoveryPhase::MineConfirmations, ..run },
        ),
        (RefundRecoveryPhase::MineConfirmations, ReplyView::Done) => Ok(
            RefundRecoveryRunView { phase: RefundRecoveryPhase::VerifyOnBothNodes, ..run },
        ),
        (RefundRecoveryPhase::VerifyOnBothNodes, ReplyView::Done) => Ok(
            RefundRecoveryRunView { phase: RefundRecoveryPhase::CheckInvoices, ..run },
        ),
        (RefundRecoveryPhase::CheckInvoices, ReplyView::Document(Some(listing))) => {
            if lists_hash(listing, run.payment_hash) {
                Err("doomsday submarine invoice did not reach unpaid-final removal"@)
            } else {
                Ok(RefundRecoveryRunView { phase: RefundRecoveryPhase::Finished, ..run })
            }
        },
        _ => Err(wrong_reply()),
    }
}

impl RefundRecoveryRun {
    /// The recovery of a submarine case before its first action.
    pub fn new(
        case: DoomsdayCase,
        confirmations: u64,
        contract: &Json,
        provider_pubkey: &str,
        order_id: &str,
        controller_audit: &Json,
    ) -> (run: RefundRecoveryRun)
        ensures
            run@.phase == RefundRecoveryPhase::DeriveFundingId,
            run@.case == case,
            run@.confirmations == confirmations,
            run@.contract == contract@,
            run@.provider_pubkey == provider_pubkey@,
            run@.order_id == order_id@,
            run@.controller_audit == controller_audit@,
            run@.funding_id == Seq::<char>::empty(),
            run@.funding_hex == Seq::<char>::empty(),
            run@.funding_output == 0,
            run@.funding_confirmation_height == 0,
            run@.payment_hash == Seq::<char>::empty(),
            run@.refund_lock_height == 0,
            run@.height == 0,
            run@.timeout_height == 0,
            run@.effect_id == Seq::<char>::empty(),
            run@.refund_hex == Seq::<char>::empty(),
            run@.refund_id == Seq::<char>::empty(),
    {
        RefundRecoveryRun {
            phase: RefundRecoveryPhase::DeriveFundingId,
            case,
            confirmations,
            contract: contract.copy(),
            provider_pubkey: provider_pubkey.to_owned(),
            order_id: order_id.to_owned(),
            controller_audit: controller_audit.copy(),
            funding_id: String::new(),
            funding_hex: String::new(),
            funding_output: 0,
            funding_confirmation_height: 0,
            payment_hash: String::new(),
            refund_lock_height: 0,
            height: 0,
            timeout_height: 0,
            effect_id: String::new(),
            refund_hex: String::new(),
            refund_id: String::new(),
        }
    }

    /// What the journey asks for next.
    pub fn action(&self) -> (action: Action)
        ensures
            action@ == refund_recovery_action(self@),
    {
        match self.phase {
            RefundRecoveryPhase::DeriveFundingId => perform(Task::DeriveFundingId),
            RefundRecoveryPhase::RequireFundingKnown => perform_with_three(
                Task::RequireKnownTransaction,
                "doomsday-funding",
                self.funding_id.as_str(),
                self.funding_hex.as_str(),
            ),
            RefundRecoveryPhase::MineFunding => Action::Mine(
                "bitcoin".to_owned(),
                1,
                "doomsday-funding",
            ),
            RefundRecoveryPhase::ReadConfirmation => perform_with_two(
                Task::ReadConfirmationHeight,
                "doomsday-funding-confirmation",
                self.funding_id.as_str(),
            ),
            RefundRecoveryPhase::FinalizeInvoice => perform_with_two(
                Task::FinalizeInvoice,
                self.case.invoice_label(),
                self.payment_hash.as_str(),
            ),
            RefundRecoveryPhase::ReadHeight => perform_with(
                Task::ReadHeight,
                "doomsday-before-timeout",
            ),
            RefundRecoveryPhase::PlanBeforeTimeout => Action::Plan(
                show_refund(self.height, self.funding_confirmation_height, false),
            ),
            RefundRecoveryPhase::MineTimeout => Action::Mine(
                "bitcoin".to_owned(),
                count_blocks_until(self.refund_lock_height, self.height),
                "doomsday-refund-timeout",
            ),
            RefundRecoveryPhase::ReadTimeoutHeight => perform_with(
                Task::ReadHeight,
                "doomsday-timeout",
            ),
            RefundRecoveryPhase::PlanRefund => Action::Plan(
                show_refund(self.timeout_height, self.funding_confirmation_height, false),
            ),
            RefundRecoveryPhase::BuildRequest => perform_with(
                Task::BuildKeylessRequest,
                self.effect_id.as_str(),
            ),
            RefundRecoveryPhase::BroadcastRefund => perform_with_three(
                Task::BroadcastBitcoin,
                "doomsday-presigned-refund",
                self.refund_hex.as_str(),
                self.refund_id.as_str(),
            ),
            RefundRecoveryPhase::RecordBroadcast => perform_with_two(
                Task::RecordEsploraEffect,
                self.refund_id.as_str(),
                self.refund_hex.as_str(),
            ),
            RefundRecoveryPhase::MineConfirmations => Action::Mine(
                "bitcoin".to_owned(),
                self.confirmations,
                "doomsday-refund-confirmation",
            ),
            RefundRecoveryPhase::VerifyOnBothNodes => perform_with_four(
                Task::VerifyOnBothNodes,
                self.funding_id.as_str(),
                decimal_text(self.funding_output as u64).as_str(),
                self.refund_id.as_str(),
                self.refund_hex.as_str(),
            ),
            RefundRecoveryPhase::CheckInvoices => perform_with(
                Task::ListInvoices,
                "doomsday-terminal-invoice",
            ),
            RefundRecoveryPhase::Finished => Action::Finish,
        }
    }

    /// Takes a reply: the journey goes on to its next phase, or ends with a message.
    #[verifier::rlimit(80)]
    pub fn advance(&mut self, reply: Reply) -> (moved: Result<(), String>)
        ensures
            match moved {
                Ok(_) => refund_recovery_step(
                    old(self)@,
                    reply@,
                ) == Ok::<RefundRecoveryRunView, Seq<char>>(final(self)@),
                Err(message) => {
                    &&& refund_recovery_step(
                        old(self)@,
                        reply@,
                    ) == Err::<RefundRecoveryRunView, Seq<char>>(message@)
                    &&& final(self)@ == old(self)@
                },
            },
    {
        match (self.phase, reply) {
            (RefundRecoveryPhase::DeriveFundingId, Reply::Texts(texts)) => {
                if texts.len() != 1 {
                    return Err(wrong_reply_text());
                }
                let funding: (String, u32) = source_funding(
                    &self.contract,
                    "doomsday funding output is not bounded",
                )?;
                self.funding_id = texts[0].clone();
                self.funding_hex = funding.0;
                self.funding_output = funding.1;
                self.phase = RefundRecoveryPhase::RequireFundingKnown;
                Ok(())
            },
            (RefundRecoveryPhase::RequireFundingKnown, Reply::Document(Some(report))) => {
                let known: () = verify_known_bitcoin_transaction(
                    &report,
                    self.funding_id.as_str(),
                    Some(self.funding_hex.as_str()),
                )?;
                self.phase = RefundRecoveryPhase::MineFunding;
                Ok(())
            },
            (RefundRecoveryPhase::MineFunding, Reply::Done) => {
                self.phase = RefundRecoveryPhase::ReadConfirmation;
                Ok(())
            },
            (RefundRecoveryPhase::ReadConfirmation, Reply::Number(value)) => {
                let height: u32 = narrow_height(value, "funding confirmation height exceeds u32")?;
                let hash: String = match self.contract.text_at("payment_hash") {
                    Some(hash) => hash.to_owned(),
                    None => {
                        return Err("doomsday contract has no payment hash".to_owned());
                    },
                };
                self.payment_hash = hash;
                self.funding_confirmation_height = height;
                self.phase = RefundRecoveryPhase::FinalizeInvoice;
                Ok(())
            },
            (RefundRecoveryPhase::FinalizeInvoice, Reply::Removal { deleted, remaining }) => {
                let removed: () = finalize_invoice_unpaid(
                    &deleted,
                    &remaining,
                    self.payment_hash.as_str(),
                )?;
                let terms: BitcoinTerms = bitcoin_terms(&self.contract, "source")?;
                self.refund_lock_height = terms.refund_lock_height;
                self.phase = RefundRecoveryPhase::ReadHeight;
                Ok(())
            },
            (RefundRecoveryPhase::ReadHeight, Reply::Number(value)) => {
                let height: u32 = narrow_height(value, "Bitcoin chain height exceeds u32")?;
                self.height = height;
                self.phase = RefundRecoveryPhase::PlanBeforeTimeout;
                Ok(())
            },
            (RefundRecoveryPhase::PlanBeforeTimeout, Reply::Planned(planned)) => match planned {
                Err(message) => Err(
                    join("doomsday planner rejected local observations: ", message.as_str()),
                ),
                Ok(Plan::WaitForTimeout) => {
                    self.phase = RefundRecoveryPhase::MineTimeout;
                    Ok(())
                },
                Ok(_) => Err("doomsday planner authorized an early refund broadcast".to_owned()),
            },
            (RefundRecoveryPhase::MineTimeout, Reply::Done) => {
                self.phase = RefundRecoveryPhase::ReadTimeoutHeight;
                Ok(())
            },
            (RefundRecoveryPhase::ReadTimeoutHeight, Reply::Number(value)) => {
                let height: u32 = narrow_height(value, "Bitcoin chain height exceeds u32")?;
                if height < self.refund_lock_height {
                    return Err(
                        "doomsday recovery did not reach the committed refund height".to_owned(),
                    );
                }
                self.timeout_height = height;
                self.phase = RefundRecoveryPhase::PlanRefund;
                Ok(())
            },
            (RefundRecoveryPhase::PlanRefund, Reply::Planned(planned)) => match planned {
                Err(message) => Err(
                    join("doomsday planner rejected local observations: ", message.as_str()),
                ),
                Ok(Plan::BroadcastPresigned(effect_id)) => {
                    self.effect_id = effect_id;
                    self.phase = RefundRecoveryPhase::BuildRequest;
                    Ok(())
                },
                Ok(_) => Err("doomsday planner did not authorize the pre-signed refund".to_owned()),
            },
            (RefundRecoveryPhase::BuildRequest, Reply::Texts(texts)) => {
                if texts.len() != 2 {
                    return Err(wrong_reply_text());
                }
                self.refund_hex = texts[0].clone();
                self.refund_id = texts[1].clone();
                self.phase = RefundRecoveryPhase::BroadcastRefund;
                Ok(())
            },
            (RefundRecoveryPhase::BuildRequest, Reply::Done) => {
                Err("doomsday planner selected an unbound exit package".to_owned())
            },
            (RefundRecoveryPhase::BroadcastRefund, Reply::Done) => {
                self.phase = RefundRecoveryPhase::RecordBroadcast;
                Ok(())
            },
            (RefundRecoveryPhase::RecordBroadcast, Reply::Done) => {
                self.phase = RefundRecoveryPhase::MineConfirmations;
                Ok(())
            },
            (RefundRecoveryPhase::MineConfirmations, Reply::Done) => {
                self.phase = RefundRecoveryPhase::VerifyOnBothNodes;
                Ok(())
            },
            (RefundRecoveryPhase::VerifyOnBothNodes, Reply::Done) => {
                self.phase = RefundRecoveryPhase::CheckInvoices;
                Ok(())
            },
            (RefundRecoveryPhase::CheckInvoices, Reply::Document(Some(listing))) => {
                if some_invoice(&listing, self.payment_hash.as_str()) {
                    return Err(
                        "doomsday submarine invoice did not reach unpaid-final removal".to_owned(),
                    );
                }
                self.phase = RefundRecoveryPhase::Finished;
                Ok(())
            },
            _ => Err(wrong_reply_text()),
        }
    }
}

/// Whether each entry of a trace leads to the one after it, from the first phase on.
pub open spec fn is_refund_recovery_trace(trace: Seq<(RefundRecoveryRunView, ReplyView)>) -> bool {
    &&& trace.len() > 0
    &&& trace[0].0.phase == RefundRecoveryPhase::DeriveFundingId
    &&& forall|i: int|
        0 <= i < trace.len() - 1 ==> refund_recovery_step(
            (#[trigger] trace[i]).0,
            trace[i].1,
        ) == Ok::<
            RefundRecoveryRunView,
            Seq<char>,
        >(trace[i + 1].0)
}

/// Each reply takes the recovery of a submarine case forward, never back and never in place.
pub proof fn law_refund_recovery_moves_forward(run: RefundRecoveryRunView, reply: ReplyView)
    requires
        refund_recovery_step(run, reply) is Ok,
    ensures
        run.phase.rank() < refund_recovery_step(run, reply)->Ok_0.phase.rank(),
{
}

/// Which replies take the recovery of a submarine case on, and to which phase: in each phase
/// exactly the replies that pass every check of that phase, and no others.
pub proof fn law_refund_recovery_goes_on_only_when_answered(
    run: RefundRecoveryRunView,
    reply: ReplyView,
)
    ensures
        ({
            let next = refund_recovery_step(run, reply);
            match run.phase {
                RefundRecoveryPhase::DeriveFundingId => {
                    &&& next is Ok <==> {
                        &&& reply is Texts
                        &&& reply->Texts_0.len() == 1
                        &&& source_funding_reading(
                            run.contract,
                            "doomsday funding output is not bounded"@,
                        ) is Ok
                    }
                    &&& next is Ok ==> next->Ok_0.phase == RefundRecoveryPhase::RequireFundingKnown
                },
                RefundRecoveryPhase::RequireFundingKnown => {
                    &&& next is Ok <==> {
                        &&& reply is Document
                        &&& reply->Document_0 is Some
                        &&& known_transaction_reading(
                            reply->Document_0->0,
                            run.funding_id,
                            Some(run.funding_hex),
                        ) is Ok
                    }
                    &&& next is Ok ==> next->Ok_0.phase == RefundRecoveryPhase::MineFunding
                },
                RefundRecoveryPhase::MineFunding => {
                    &&& next is Ok <==> reply is Done
                    &&& next is Ok ==> next->Ok_0.phase == RefundRecoveryPhase::ReadConfirmation
                },
                RefundRecoveryPhase::ReadConfirmation => {
                    &&& next is Ok <==> {
                        &&& reply is Number
                        &&& height_reading(
                            reply->Number_0,
                            "funding confirmation height exceeds u32"@,
                        ) is Ok
                        &&& member_text(run.contract, "payment_hash"@) is Some
                    }
                    &&& next is Ok ==> next->Ok_0.phase == RefundRecoveryPhase::FinalizeInvoice
                },
                RefundRecoveryPhase::FinalizeInvoice => {
                    &&& next is Ok <==> {
                        &&& reply is Removal
                        &&& removal_reading(
                            reply->Removal_deleted,
                            reply->Removal_remaining,
                            run.payment_hash,
                        ) is Ok
                        &&& terms_reading(run.contract, "source"@) is Ok
                    }
                    &&& next is Ok ==> next->Ok_0.phase == RefundRecoveryPhase::ReadHeight
                },
                RefundRecoveryPhase::ReadHeight => {
                    &&& next is Ok <==> {
                        &&& reply is Number
                        &&& height_reading(
                            reply->Number_0,
                            "Bitcoin chain height exceeds u32"@,
                        ) is Ok
                    }
                    &&& next is Ok ==> next->Ok_0.phase == RefundRecoveryPhase::PlanBeforeTimeout
                },
                RefundRecoveryPhase::PlanBeforeTimeout => {
                    &&& next is Ok <==> {
                        &&& reply is Planned
                        &&& reply->Planned_0 is Ok
                        &&& reply->Planned_0->Ok_0 is WaitForTimeout
                    }
                    &&& next is Ok ==> next->Ok_0.phase == RefundRecoveryPhase::MineTimeout
                },
                RefundRecoveryPhase::MineTimeout => {
                    &&& next is Ok <==> reply is Done
                    &&& next is Ok ==> next->Ok_0.phase == RefundRecoveryPhase::ReadTimeoutHeight
                },
                RefundRecoveryPhase::ReadTimeoutHeight => {
                    &&& next is Ok <==> {
                        &&& reply is Number
                        &&& height_reading(
                            reply->Number_0,
                            "Bitcoin chain height exceeds u32"@,
                        ) is Ok
                        &&& height_reading(
                            reply->Number_0,
                            "Bitcoin chain height exceeds u32"@,
                        )->Ok_0 >= run.refund_lock_height
                    }
                    &&& next is Ok ==> next->Ok_0.phase == RefundRecoveryPhase::PlanRefund
                },
                RefundRecoveryPhase::PlanRefund => {
                    &&& next is Ok <==> {
                        &&& reply is Planned
                        &&& reply->Planned_0 is Ok
                        &&& reply->Planned_0->Ok_0 is BroadcastPresigned
                    }
                    &&& next is Ok ==> next->Ok_0.phase == RefundRecoveryPhase::BuildRequest
                },
                RefundRecoveryPhase::BuildRequest => {
                    &&& next is Ok <==> {
                        &&& reply is Texts
                        &&& reply->Texts_0.len() == 2
                    }
                    &&& next is Ok ==> next->Ok_0.phase == RefundRecoveryPhase::BroadcastRefund
                },
                RefundRecoveryPhase::BroadcastRefund => {
                    &&& next is Ok <==> reply is Done
                    &&& next is Ok ==> next->Ok_0.phase == RefundRecoveryPhase::RecordBroadcast
                },
                RefundRecoveryPhase::RecordBroadcast => {
                    &&& next is Ok <==> reply is Done
                    &&& next is Ok ==> next->Ok_0.phase == RefundRecoveryPhase::MineConfirmations
                },
                RefundRecoveryPhase::MineConfirmations => {
                    &&& next is Ok <==> reply is Done
                    &&& next is Ok ==> next->Ok_0.phase == RefundRecoveryPhase::VerifyOnBothNodes
                },
                RefundRecoveryPhase::VerifyOnBothNodes => {
                    &&& next is Ok <==> reply is Done
                    &&& next is Ok ==> next->Ok_0.phase == RefundRecoveryPhase::CheckInvoices
                },
                RefundRecoveryPhase::CheckInvoices => {
                    &&& next is Ok <==> {
                        &&& reply is Document
                        &&& reply->Document_0 is Some
                        &&& !(lists_hash(reply->Document_0->0, run.payment_hash))
                    }
                    &&& next is Ok ==> next->Ok_0.phase == RefundRecoveryPhase::Finished
                },
                RefundRecoveryPhase::Finished => next is Err,
            }
        }),
{
}

/// The reply that a trace of the recovery of a submarine case holds for a phase.
pub open spec fn refund_recovery_told(
    trace: Seq<(RefundRecoveryRunView, ReplyView)>,
    phase: RefundRecoveryPhase,
) -> ReplyView {
    trace[choose|i: int| 0 <= i < trace.len() && (#[trigger] trace[i]).0.phase == phase].1
}

/// The values that a run of the recovery of a submarine case holds, by the replies that gave them:
/// each stays as the reply to one phase gave it, or as the run started with it.
pub open spec fn refund_recovery_holds(
    trace: Seq<(RefundRecoveryRunView, ReplyView)>,
    run: RefundRecoveryRunView,
) -> bool {
    let start = trace[0].0;
    let funding_id = refund_recovery_told(trace, RefundRecoveryPhase::DeriveFundingId)->Texts_0[0];
    let funding_hex = source_funding_reading(start.contract, "doomsday funding output is not bounded"@)->Ok_0.0;
    let funding_output = source_funding_reading(start.contract, "doomsday funding output is not bounded"@)->Ok_0.1;
    let funding_confirmation_height = height_reading(
        refund_recovery_told(trace, RefundRecoveryPhase::ReadConfirmation)->Number_0,
        "funding confirmation height exceeds u32"@,
    )->Ok_0;
    let payment_hash = member_text(start.contract, "payment_hash"@)->0;
    let refund_lock_height = terms_reading(start.contract, "source"@)->Ok_0.refund_lock_height;
    let height = height_reading(
        refund_recovery_told(trace, RefundRecoveryPhase::ReadHeight)->Number_0,
        "Bitcoin chain height exceeds u32"@,
    )->Ok_0;
    let timeout_height = height_reading(
        refund_recovery_told(trace, RefundRecoveryPhase::ReadTimeoutHeight)->Number_0,
        "Bitcoin chain height exceeds u32"@,
    )->Ok_0;
    let effect_id = refund_recovery_told(
        trace,
        RefundRecoveryPhase::PlanRefund,
    )->Planned_0->Ok_0->BroadcastPresigned_0;
    let refund_hex = refund_recovery_told(trace, RefundRecoveryPhase::BuildRequest)->Texts_0[0];
    let refund_id = refund_recovery_told(trace, RefundRecoveryPhase::BuildRequest)->Texts_0[1];
    &&& run.case == start.case
    &&& run.confirmations == start.confirmations
    &&& run.contract == start.contract
    &&& run.provider_pubkey == start.provider_pubkey
    &&& run.order_id == start.order_id
    &&& run.controller_audit == start.controller_audit
    &&& run.phase.rank() > RefundRecoveryPhase::DeriveFundingId.rank()
        ==> run.funding_id == funding_id
    &&& run.phase.rank() > RefundRecoveryPhase::DeriveFundingId.rank()
        ==> run.funding_hex == funding_hex
    &&& run.phase.rank() > RefundRecoveryPhase::DeriveFundingId.rank()
        ==> run.funding_output == funding_output
    &&& run.phase.rank() > RefundRecoveryPhase::ReadConfirmation.rank()
        ==> run.funding_confirmation_height == funding_confirmation_height
    &&& run.phase.rank() > RefundRecoveryPhase::ReadConfirmation.rank()
        ==> run.payment_hash == payment_hash
    &&& run.phase.rank() > RefundRecoveryPhase::FinalizeInvoice.rank()
        ==> run.refund_lock_height == refund_lock_height
    &&& run.phase.rank() > RefundRecoveryPhase::ReadHeight.rank() ==> run.height == height
    &&& run.phase.rank() > RefundRecoveryPhase::ReadTimeoutHeight.rank()
        ==> run.timeout_height == timeout_height
    &&& run.phase.rank() > RefundRecoveryPhase::PlanRefund.rank() ==> run.effect_id == effect_id
    &&& run.phase.rank() > RefundRecoveryPhase::BuildRequest.rank() ==> run.refund_hex == refund_hex
    &&& run.phase.rank() > RefundRecoveryPhase::BuildRequest.rank() ==> run.refund_id == refund_id
}

/// No phase of the recovery of a submarine case comes twice in a trace.
proof fn lemma_refund_recovery_told_once(trace: Seq<(RefundRecoveryRunView, ReplyView)>, place: int)
    requires
        is_refund_recovery_trace(trace),
        0 <= place < trace.len(),
    ensures
        refund_recovery_told(trace, trace[place].0.phase) == trace[place].1,
{
    let phase = trace[place].0.phase;
    let other = choose|i: int| 0 <= i < trace.len() && (#[trigger] trace[i]).0.phase == phase;
    assert(trace[place].0.phase == phase);
    if other != place {
        let (early, late) = if other < place {
            (other, place)
        } else {
            (place, other)
        };
        assert forall|run: RefundRecoveryRunView, reply: ReplyView|
            (#[trigger] refund_recovery_step(run, reply)) is Ok implies run.phase.rank() < refund_recovery_step(
            run,
            reply,
        )->Ok_0.phase.rank() by {
            law_refund_recovery_moves_forward(run, reply);
        }
        lemma_ranks_rise(
            trace,
            |run: RefundRecoveryRunView, reply: ReplyView| refund_recovery_step(run, reply),
            |run: RefundRecoveryRunView| run.phase.rank(),
            early,
            late,
        );
    }
}

/// A reply keeps what the recovery of a submarine case holds, and adds what it tells.
proof fn lemma_refund_recovery_holds_on(
    trace: Seq<(RefundRecoveryRunView, ReplyView)>,
    run: RefundRecoveryRunView,
    reply: ReplyView,
)
    requires
        refund_recovery_holds(trace, run),
        refund_recovery_told(trace, run.phase) == reply,
        refund_recovery_step(run, reply) is Ok,
    ensures
        refund_recovery_holds(trace, refund_recovery_step(run, reply)->Ok_0),
{
    let next = refund_recovery_step(run, reply)->Ok_0;
    match run.phase {
        RefundRecoveryPhase::DeriveFundingId => assert(refund_recovery_holds(trace, next)),
        RefundRecoveryPhase::RequireFundingKnown => assert(refund_recovery_holds(trace, next)),
        RefundRecoveryPhase::MineFunding => assert(refund_recovery_holds(trace, next)),
        RefundRecoveryPhase::ReadConfirmation => assert(refund_recovery_holds(trace, next)),
        RefundRecoveryPhase::FinalizeInvoice => assert(refund_recovery_holds(trace, next)),
        RefundRecoveryPhase::ReadHeight => assert(refund_recovery_holds(trace, next)),
        RefundRecoveryPhase::PlanBeforeTimeout => assert(refund_recovery_holds(trace, next)),
        RefundRecoveryPhase::MineTimeout => assert(refund_recovery_holds(trace, next)),
        RefundRecoveryPhase::ReadTimeoutHeight => assert(refund_recovery_holds(trace, next)),
        RefundRecoveryPhase::PlanRefund => assert(refund_recovery_holds(trace, next)),
        RefundRecoveryPhase::BuildRequest => assert(refund_recovery_holds(trace, next)),
        RefundRecoveryPhase::BroadcastRefund => assert(refund_recovery_holds(trace, next)),
        RefundRecoveryPhase::RecordBroadcast => assert(refund_recovery_holds(trace, next)),
        RefundRecoveryPhase::MineConfirmations => assert(refund_recovery_holds(trace, next)),
        RefundRecoveryPhase::VerifyOnBothNodes => assert(refund_recovery_holds(trace, next)),
        RefundRecoveryPhase::CheckInvoices => assert(refund_recovery_holds(trace, next)),
        RefundRecoveryPhase::Finished => assert(refund_recovery_holds(trace, next)),
    }
}

/// What the recovery of a submarine case has been told, it keeps: at every place of a trace each
/// value that the run holds is the one that the reply to the phase that asks for it gave, or the
/// one that the run started with.
pub proof fn law_refund_recovery_keeps_what_it_was_told(
    trace: Seq<(RefundRecoveryRunView, ReplyView)>,
    last: int,
)
    requires
        is_refund_recovery_trace(trace),
        0 <= last < trace.len(),
    ensures
        refund_recovery_holds(trace, trace[last].0),
    decreases last,
{
    if last > 0 {
        let before = last - 1;
        law_refund_recovery_keeps_what_it_was_told(trace, before);
        lemma_refund_recovery_told_once(trace, before);
        assert(refund_recovery_step(trace[before].0, trace[before].1) == Ok::<RefundRecoveryRunView, Seq<char>>(
            trace[before + 1].0,
        ));
        lemma_refund_recovery_holds_on(trace, trace[before].0, trace[before].1);
    }
}

/// What the recovery of a submarine case asks for in each phase, in terms of the replies before it:
/// the values in a request are those that the replies to the named phases gave, or those that the
/// run started with.
pub proof fn law_refund_recovery_asks_with_what_it_was_told(
    trace: Seq<(RefundRecoveryRunView, ReplyView)>,
    last: int,
)
    requires
        is_refund_recovery_trace(trace),
        0 <= last < trace.len(),
    ensures
        ({
            let start = trace[0].0;
            let funding_id = refund_recovery_told(trace, RefundRecoveryPhase::DeriveFundingId)->Texts_0[0];
            let funding_hex = source_funding_reading(
                start.contract,
                "doomsday funding output is not bounded"@,
            )->Ok_0.0;
            let funding_output = source_funding_reading(
                start.contract,
                "doomsday funding output is not bounded"@,
            )->Ok_0.1;
            let funding_confirmation_height = height_reading(
                refund_recovery_told(trace, RefundRecoveryPhase::ReadConfirmation)->Number_0,
                "funding confirmation height exceeds u32"@,
            )->Ok_0;
            let payment_hash = member_text(start.contract, "payment_hash"@)->0;
            let refund_lock_height = terms_reading(start.contract, "source"@)->Ok_0.refund_lock_height;
            let height = height_reading(
                refund_recovery_told(trace, RefundRecoveryPhase::ReadHeight)->Number_0,
                "Bitcoin chain height exceeds u32"@,
            )->Ok_0;
            let timeout_height = height_reading(
                refund_recovery_told(trace, RefundRecoveryPhase::ReadTimeoutHeight)->Number_0,
                "Bitcoin chain height exceeds u32"@,
            )->Ok_0;
            let effect_id = refund_recovery_told(
                trace,
                RefundRecoveryPhase::PlanRefund,
            )->Planned_0->Ok_0->BroadcastPresigned_0;
            let refund_hex = refund_recovery_told(trace, RefundRecoveryPhase::BuildRequest)->Texts_0[0];
            let refund_id = refund_recovery_told(trace, RefundRecoveryPhase::BuildRequest)->Texts_0[1];
            let action = refund_recovery_action(trace[last].0);
            match trace[last].0.phase {
                RefundRecoveryPhase::DeriveFundingId => action == ActionView::Perform(
                    Task::DeriveFundingId,
                    seq![],
                ),
                RefundRecoveryPhase::RequireFundingKnown => action == ActionView::Perform(
                    Task::RequireKnownTransaction,
                    seq!["doomsday-funding"@, funding_id, funding_hex],
                ),
                RefundRecoveryPhase::MineFunding => action == ActionView::Mine(
                    "bitcoin"@,
                    1,
                    "doomsday-funding"@,
                ),
                RefundRecoveryPhase::ReadConfirmation => action == ActionView::Perform(
                    Task::ReadConfirmationHeight,
                    seq!["doomsday-funding-confirmation"@, funding_id],
                ),
                RefundRecoveryPhase::FinalizeInvoice => action == ActionView::Perform(
                    Task::FinalizeInvoice,
                    seq![start.case.invoice_text(), payment_hash],
                ),
                RefundRecoveryPhase::ReadHeight => action == ActionView::Perform(
                    Task::ReadHeight,
                    seq!["doomsday-before-timeout"@],
                ),
                RefundRecoveryPhase::PlanBeforeTimeout => action == ActionView::Plan(
                    refund_standing(height, funding_confirmation_height, false),
                ),
                RefundRecoveryPhase::MineTimeout => action == ActionView::Mine(
                    "bitcoin"@,
                    blocks_until(refund_lock_height, height),
                    "doomsday-refund-timeout"@,
                ),
                RefundRecoveryPhase::ReadTimeoutHeight => action == ActionView::Perform(
                    Task::ReadHeight,
                    seq!["doomsday-timeout"@],
                ),
                RefundRecoveryPhase::PlanRefund => action == ActionView::Plan(
                    refund_standing(timeout_height, funding_confirmation_height, false),
                ),
                RefundRecoveryPhase::BuildRequest => action == ActionView::Perform(
                    Task::BuildKeylessRequest,
                    seq![effect_id],
                ),
                RefundRecoveryPhase::BroadcastRefund => action == ActionView::Perform(
                    Task::BroadcastBitcoin,
                    seq!["doomsday-presigned-refund"@, refund_hex, refund_id],
                ),
                RefundRecoveryPhase::RecordBroadcast => action == ActionView::Perform(
                    Task::RecordEsploraEffect,
                    seq![refund_id, refund_hex],
                ),
                RefundRecoveryPhase::MineConfirmations => action == ActionView::Mine(
                    "bitcoin"@,
                    start.confirmations,
                    "doomsday-refund-confirmation"@,
                ),
                RefundRecoveryPhase::VerifyOnBothNodes => action == ActionView::Perform(
                    Task::VerifyOnBothNodes,
                    seq![funding_id, decimal(funding_output as nat), refund_id, refund_hex],
                ),
                RefundRecoveryPhase::CheckInvoices => action == ActionView::Perform(
                    Task::ListInvoices,
                    seq!["doomsday-terminal-invoice"@],
                ),
                RefundRecoveryPhase::Finished => action == ActionView::Finish,
            }
        }),
{
    law_refund_recovery_keeps_what_it_was_told(trace, last);
}

/// What the recovery of a submarine case reports at its end is what it was told on the way: each
/// identifier in the report is the one that the reply to the named phase gave, or one that the run
/// started with.
pub proof fn law_refund_recovery_doc_names_what_it_was_told(
    trace: Seq<(RefundRecoveryRunView, ReplyView)>,
    last: int,
)
    requires
        is_refund_recovery_trace(trace),
        0 <= last < trace.len(),
        trace[last].0.phase == RefundRecoveryPhase::Finished,
    ensures
        ({
            let start = trace[0].0;
            let funding_id = refund_recovery_told(trace, RefundRecoveryPhase::DeriveFundingId)->Texts_0[0];
            let funding_output = source_funding_reading(
                start.contract,
                "doomsday funding output is not bounded"@,
            )->Ok_0.1;
            let funding_confirmation_height = height_reading(
                refund_recovery_told(trace, RefundRecoveryPhase::ReadConfirmation)->Number_0,
                "funding confirmation height exceeds u32"@,
            )->Ok_0;
            let payment_hash = member_text(start.contract, "payment_hash"@)->0;
            let refund_lock_height = terms_reading(start.contract, "source"@)->Ok_0.refund_lock_height;
            let refund_id = refund_recovery_told(trace, RefundRecoveryPhase::BuildRequest)->Texts_0[1];
            refund_recovery_doc(trace[last].0) == JsonView::Object(
                no_members().insert("proof_class"@, text_doc("presigned_regtest_exit"@)).insert("provider_pubkey"@, text_doc(start.provider_pubkey)).insert("order_id"@, text_doc(start.order_id)).insert("funding_transaction_id"@, text_doc(funding_id)).insert("funding_output_index"@, number_doc(funding_output as u64)).insert("refund_transaction_id"@, text_doc(refund_id)).insert("funding_confirmation_height"@, number_doc(funding_confirmation_height as u64)).insert("refund_lock_height"@, number_doc(refund_lock_height as u64)).insert("payment_hash"@, text_doc(payment_hash)).insert("outcome"@, text_doc("refunded"@)).insert("controller_audit"@, start.controller_audit).insert(
                    "checks"@,
                    JsonView::Object(
                        no_members().insert(
                            "fresh_requester_process_restored_before_relay"@,
                            JsonView::Bool(true),
                        ).insert("relay_connections_after_restore"@, number_doc(0)).insert("provider_process_absent"@, JsonView::Bool(true)).insert("relay_processes_absent"@, JsonView::Bool(true)).insert("presigned_before_contract"@, JsonView::Bool(true)).insert("presigned_before_funding"@, JsonView::Bool(true)).insert("wallet_sign_after_contract"@, JsonView::Bool(false)).insert("broadcast_before_timeout"@, JsonView::Bool(false)).insert("verified_local_chain_observation"@, JsonView::Bool(true)).insert(
                            "verified_local_lightning_observation"@,
                            JsonView::Bool(true),
                        ).insert("exact_outpoint_spent"@, JsonView::Bool(true)).insert(
                            "both_bitcoind_nodes_agree"@,
                            JsonView::Bool(true),
                        ).insert("transaction_confirmed"@, JsonView::Bool(true)).insert(
                            "lightning_unpaid_final"@,
                            JsonView::Bool(true),
                        ).insert("keyless_process"@, JsonView::Bool(false)),
                    ),
                ),
            )
        }),
{
    law_refund_recovery_keeps_what_it_was_told(trace, last);
}

/// The refund is broadcast only after the committed height was reached.
pub proof fn law_refund_waits_for_its_timeout(
    trace: Seq<(RefundRecoveryRunView, ReplyView)>,
    last: int,
)
    requires
        is_refund_recovery_trace(trace),
        0 <= last < trace.len(),
        trace[last].0.phase == RefundRecoveryPhase::BroadcastRefund,
    ensures
        exists|i: int|
            0 <= i < last && (#[trigger] trace[i]).0.phase == RefundRecoveryPhase::ReadTimeoutHeight
                && (trace[i].1 matches ReplyView::Number(height) && height
                >= trace[i].0.refund_lock_height),
{
    let i = lemma_milestone(
        trace,
        |run: RefundRecoveryRunView, reply: ReplyView| refund_recovery_step(run, reply),
        |run: RefundRecoveryRunView| run.phase.rank(),
        8,
        last,
    );
    assert(trace[i].0.phase == RefundRecoveryPhase::ReadTimeoutHeight);
    assert(refund_recovery_step(trace[i].0, trace[i].1) == Ok::<RefundRecoveryRunView,
        Seq<char>>(trace[i + 1].0));
}

/// The refund is broadcast only after the planner refused it before the timeout.
pub proof fn law_refund_is_not_planned_early(
    trace: Seq<(RefundRecoveryRunView, ReplyView)>,
    last: int,
)
    requires
        is_refund_recovery_trace(trace),
        0 <= last < trace.len(),
        trace[last].0.phase == RefundRecoveryPhase::BroadcastRefund,
    ensures
        exists|i: int|
            0 <= i < last && (#[trigger] trace[i]).0.phase == RefundRecoveryPhase::PlanBeforeTimeout
                && trace[i].1 == ReplyView::Planned(Ok(PlanView::WaitForTimeout)),
{
    let i = lemma_milestone(
        trace,
        |run: RefundRecoveryRunView, reply: ReplyView| refund_recovery_step(run, reply),
        |run: RefundRecoveryRunView| run.phase.rank(),
        6,
        last,
    );
    assert(trace[i].0.phase == RefundRecoveryPhase::PlanBeforeTimeout);
    assert(refund_recovery_step(trace[i].0, trace[i].1) == Ok::<RefundRecoveryRunView,
        Seq<char>>(trace[i + 1].0));
}

/// The refund is broadcast only after the invoice was removed unpaid.
pub proof fn law_refund_follows_the_removal_of_the_invoice(
    trace: Seq<(RefundRecoveryRunView, ReplyView)>,
    last: int,
)
    requires
        is_refund_recovery_trace(trace),
        0 <= last < trace.len(),
        trace[last].0.phase == RefundRecoveryPhase::BroadcastRefund,
    ensures
        exists|i: int|
            0 <= i < last && (#[trigger] trace[i]).0.phase == RefundRecoveryPhase::FinalizeInvoice
                && (trace[i].1 matches ReplyView::Removal { deleted, remaining } &&
                removal_reading(deleted, remaining, trace[i].0.payment_hash) is Ok),
{
    let i = lemma_milestone(
        trace,
        |run: RefundRecoveryRunView, reply: ReplyView| refund_recovery_step(run, reply),
        |run: RefundRecoveryRunView| run.phase.rank(),
        4,
        last,
    );
    assert(trace[i].0.phase == RefundRecoveryPhase::FinalizeInvoice);
    assert(refund_recovery_step(trace[i].0, trace[i].1) == Ok::<RefundRecoveryRunView,
        Seq<char>>(trace[i + 1].0));
}

/// The proof of a submarine case that was recovered.
pub open spec fn refund_recovery_doc(run: RefundRecoveryRunView) -> JsonView {
    JsonView::Object(
        no_members().insert("proof_class"@, text_doc("presigned_regtest_exit"@)).insert(
            "provider_pubkey"@,
            text_doc(run.provider_pubkey),
        ).insert("order_id"@, text_doc(run.order_id)).insert(
            "funding_transaction_id"@,
            text_doc(run.funding_id),
        ).insert("funding_output_index"@, number_doc(run.funding_output as u64)).insert(
            "refund_transaction_id"@,
            text_doc(run.refund_id),
        ).insert(
            "funding_confirmation_height"@,
            number_doc(run.funding_confirmation_height as u64),
        ).insert("refund_lock_height"@, number_doc(run.refund_lock_height as u64)).insert(
            "payment_hash"@,
            text_doc(run.payment_hash),
        ).insert("outcome"@, text_doc("refunded"@)).insert(
            "controller_audit"@,
            run.controller_audit,
        ).insert(
            "checks"@,
            JsonView::Object(
                no_members().insert(
                    "fresh_requester_process_restored_before_relay"@,
                    JsonView::Bool(true),
                ).insert("relay_connections_after_restore"@, number_doc(0)).insert(
                    "provider_process_absent"@,
                    JsonView::Bool(true),
                ).insert("relay_processes_absent"@, JsonView::Bool(true)).insert(
                    "presigned_before_contract"@,
                    JsonView::Bool(true),
                ).insert("presigned_before_funding"@, JsonView::Bool(true)).insert(
                    "wallet_sign_after_contract"@,
                    JsonView::Bool(false),
                ).insert("broadcast_before_timeout"@, JsonView::Bool(false)).insert(
                    "verified_local_chain_observation"@,
                    JsonView::Bool(true),
                ).insert("verified_local_lightning_observation"@, JsonView::Bool(true)).insert(
                    "exact_outpoint_spent"@,
                    JsonView::Bool(true),
                ).insert("both_bitcoind_nodes_agree"@, JsonView::Bool(true)).insert(
                    "transaction_confirmed"@,
                    JsonView::Bool(true),
                ).insert("lightning_unpaid_final"@, JsonView::Bool(true)).insert(
                    "keyless_process"@,
                    JsonView::Bool(false),
                ),
            ),
        ),
    )
}

impl RefundRecoveryRun {
    fn recovery_document(&self) -> (document: Json)
        ensures
            document@ == refund_recovery_doc(self@),
    {
        Json::object(
            JsonObject::new().with_text("proof_class", "presigned_regtest_exit").with_text(
                "provider_pubkey",
                self.provider_pubkey.as_str(),
            ).with_text("order_id", self.order_id.as_str()).with_text(
                "funding_transaction_id",
                self.funding_id.as_str(),
            ).with_number("funding_output_index", self.funding_output as u64).with_text(
                "refund_transaction_id",
                self.refund_id.as_str(),
            ).with_number(
                "funding_confirmation_height",
                self.funding_confirmation_height as u64,
            ).with_number("refund_lock_height", self.refund_lock_height as u64).with_text(
                "payment_hash",
                self.payment_hash.as_str(),
            ).with_text("outcome", "refunded").with(
                "controller_audit",
                self.controller_audit.copy(),
            ).with(
                "checks",
                Json::object(
                    JsonObject::new().with_bool(
                        "fresh_requester_process_restored_before_relay",
                        true,
                    ).with_number("relay_connections_after_restore", 0).with_bool(
                        "provider_process_absent",
                        true,
                    ).with_bool("relay_processes_absent", true).with_bool(
                        "presigned_before_contract",
                        true,
                    ).with_bool("presigned_before_funding", true).with_bool(
                        "wallet_sign_after_contract",
                        false,
                    ).with_bool("broadcast_before_timeout", false).with_bool(
                        "verified_local_chain_observation",
                        true,
                    ).with_bool("verified_local_lightning_observation", true).with_bool(
                        "exact_outpoint_spent",
                        true,
                    ).with_bool("both_bitcoind_nodes_agree", true).with_bool(
                        "transaction_confirmed",
                        true,
                    ).with_bool("lightning_unpaid_final", true).with_bool("keyless_process", false),
                ),
            ),
        )
    }

    /// The proof of a submarine case that was recovered; nothing before it is over.
    pub fn recovered(&self) -> (document: Option<Json>)
        ensures
            match document {
                Some(document) => self@.phase == RefundRecoveryPhase::Finished && document@ == refund_recovery_doc(self@),
                None => self@.phase != RefundRecoveryPhase::Finished,
            },
    {
        if self.phase == RefundRecoveryPhase::Finished {
            Some(self.recovery_document())
        } else {
            None
        }
    }
}

/// The phases of the end of a keyless case, in their order.
#[derive(Clone, Copy, Debug, PartialEq, Eq, Structural)]
pub enum KeylessRecoveryPhase {
    RequireRefundKnown,
    DeriveFundingId,
    ReadConfirmation,
    ReadHeight,
    RecordBroadcast,
    MineConfirmations,
    VerifyOnBothNodes,
    CheckInvoices,
    Finished,
}

impl KeylessRecoveryPhase {
    /// The place of the phase in their order.
    pub open spec fn rank(self) -> int {
        match self {
            KeylessRecoveryPhase::RequireRefundKnown => 0,
            KeylessRecoveryPhase::DeriveFundingId => 1,
            KeylessRecoveryPhase::ReadConfirmation => 2,
            KeylessRecoveryPhase::ReadHeight => 3,
            KeylessRecoveryPhase::RecordBroadcast => 4,
            KeylessRecoveryPhase::MineConfirmations => 5,
            KeylessRecoveryPhase::VerifyOnBothNodes => 6,
            KeylessRecoveryPhase::CheckInvoices => 7,
            KeylessRecoveryPhase::Finished => 8,
        }
    }
}

/// The refund of a submarine swap that someone without keys has broadcast.
pub struct KeylessRecoveryRun {
    pub phase: KeylessRecoveryPhase,
    pub case: DoomsdayCase,
    pub confirmations: u64,
    pub contract: Json,
    pub provider_pubkey: String,
    pub order_id: String,
    pub controller_audit: Json,
    pub effect_id: String,
    pub refund_hex: String,
    pub refund_id: String,
    pub funding_id: String,
    pub funding_hex: String,
    pub funding_output: u32,
    pub funding_confirmation_height: u32,
    pub refund_lock_height: u32,
    pub height: u32,
    pub payment_hash: String,
}

/// The refund of a submarine swap that someone without keys has broadcast.
#[verifier::ext_equal]
pub struct KeylessRecoveryRunView {
    pub phase: KeylessRecoveryPhase,
    pub case: DoomsdayCase,
    pub confirmations: u64,
    pub contract: JsonView,
    pub provider_pubkey: Seq<char>,
    pub order_id: Seq<char>,
    pub controller_audit: JsonView,
    pub effect_id: Seq<char>,
    pub refund_hex: Seq<char>,
    pub refund_id: Seq<char>,
    pub funding_id: Seq<char>,
    pub funding_hex: Seq<char>,
    pub funding_output: u32,
    pub funding_confirmation_height: u32,
    pub refund_lock_height: u32,
    pub height: u32,
    pub payment_hash: Seq<char>,
}

impl View for KeylessRecoveryRun {
    type V = KeylessRecoveryRunView;

    open spec fn view(&self) -> KeylessRecoveryRunView {
        KeylessRecoveryRunView {
            phase: self.phase,
            case: self.case,
            confirmations: self.confirmations,
            contract: self.contract@,
            provider_pubkey: self.provider_pubkey@,
            order_id: self.order_id@,
            controller_audit: self.controller_audit@,
            effect_id: self.effect_id@,
            refund_hex: self.refund_hex@,
            refund_id: self.refund_id@,
            funding_id: self.funding_id@,
            funding_hex: self.funding_hex@,
            funding_output: self.funding_output,
            funding_confirmation_height: self.funding_confirmation_height,
            refund_lock_height: self.refund_lock_height,
            height: self.height,
            payment_hash: self.payment_hash@,
        }
    }
}

/// What the end of a keyless case asks for next.
pub open spec fn keyless_recovery_action(run: KeylessRecoveryRunView) -> ActionView {
    match run.phase {
        KeylessRecoveryPhase::RequireRefundKnown => ActionView::Perform(
            Task::RequireKnownTransaction,
            seq!["doomsday-keyless-refund"@, run.refund_id, run.refund_hex],
        ),
        KeylessRecoveryPhase::DeriveFundingId => ActionView::Perform(Task::DeriveFundingId, seq![]),
        KeylessRecoveryPhase::ReadConfirmation => ActionView::Perform(
            Task::ReadConfirmationHeight,
            seq!["keyless-funding-confirmation"@, run.funding_id],
        ),
        KeylessRecoveryPhase::ReadHeight => ActionView::Perform(
            Task::ReadHeight,
            seq!["keyless-result-height"@],
        ),
        KeylessRecoveryPhase::RecordBroadcast => ActionView::Perform(
            Task::RecordEsploraEffect,
            seq![run.refund_id, run.refund_hex],
        ),
        KeylessRecoveryPhase::MineConfirmations => ActionView::Mine(
            "bitcoin"@,
            run.confirmations,
            "doomsday-refund-confirmation"@,
        ),
        KeylessRecoveryPhase::VerifyOnBothNodes => ActionView::Perform(
            Task::VerifyOnBothNodes,
            seq![run.funding_id, decimal(run.funding_output as nat), run.refund_id, run.refund_hex],
        ),
        KeylessRecoveryPhase::CheckInvoices => ActionView::Perform(
            Task::ListInvoices,
            seq!["doomsday-terminal-invoice"@],
        ),
        KeylessRecoveryPhase::Finished => ActionView::Finish,
    }
}

/// Where a reply takes the end of a keyless case.
pub open spec fn keyless_recovery_step(run: KeylessRecoveryRunView, reply: ReplyView) -> Result<
    KeylessRecoveryRunView,
    Seq<char>,
> {
    match (run.phase, reply) {
        (KeylessRecoveryPhase::RequireRefundKnown, ReplyView::Document(Some(report))) => match known_transaction_reading(
            report,
            run.refund_id,
            Some(run.refund_hex),
        ) {
            Err(message) => Err(message),
            Ok(known) => Ok(
                KeylessRecoveryRunView { phase: KeylessRecoveryPhase::DeriveFundingId, ..run },
            ),
        },
        (KeylessRecoveryPhase::DeriveFundingId, ReplyView::Texts(texts)) => {
            if texts.len() != 1 {
                Err(wrong_reply())
            } else {
                match source_funding_reading(
                    run.contract,
                    "keyless funding output is not bounded"@,
                ) {
                    Err(message) => Err(message),
                    Ok(funding) => Ok(
                        KeylessRecoveryRunView {
                            phase: KeylessRecoveryPhase::ReadConfirmation,
                            funding_id: texts[0],
                            funding_hex: funding.0,
                            funding_output: funding.1,
                            ..run
                        },
                    ),
                }
            }
        },
        (KeylessRecoveryPhase::ReadConfirmation, ReplyView::Number(value)) => match height_reading(
            value,
            "funding confirmation height exceeds u32"@,
        ) {
            Err(message) => Err(message),
            Ok(height) => match terms_reading(run.contract, "source"@) {
                Err(message) => Err(message),
                Ok(terms) => Ok(
                    KeylessRecoveryRunView {
                        phase: KeylessRecoveryPhase::ReadHeight,
                        refund_lock_height: terms.refund_lock_height,
                        funding_confirmation_height: height,
                        ..run
                    },
                ),
            },
        },
        (KeylessRecoveryPhase::ReadHeight, ReplyView::Number(value)) => match height_reading(
            value,
            "Bitcoin chain height exceeds u32"@,
        ) {
            Err(message) => Err(message),
            Ok(height) => {
                if height < run.refund_lock_height {
                    Err("keyless broadcaster accepted a refund before timeout"@)
                } else {
                    match member_text(run.contract, "payment_hash"@) {
                        None => Err("keyless contract has no payment hash"@),
                        Some(hash) => Ok(
                            KeylessRecoveryRunView {
                                phase: KeylessRecoveryPhase::RecordBroadcast,
                                payment_hash: hash,
                                height: height,
                                ..run
                            },
                        ),
                    }
                }
            },
        },
        (KeylessRecoveryPhase::RecordBroadcast, ReplyView::Done) => Ok(
            KeylessRecoveryRunView { phase: KeylessRecoveryPhase::MineConfirmations, ..run },
        ),
        (KeylessRecoveryPhase::MineConfirmations, ReplyView::Done) => Ok(
            KeylessRecoveryRunView { phase: KeylessRecoveryPhase::VerifyOnBothNodes, ..run },
        ),
        (KeylessRecoveryPhase::VerifyOnBothNodes, ReplyView::Done) => Ok(
            KeylessRecoveryRunView { phase: KeylessRecoveryPhase::CheckInvoices, ..run },
        ),
        (KeylessRecoveryPhase::CheckInvoices, ReplyView::Document(Some(listing))) => {
            if lists_hash(listing, run.payment_hash) {
                Err("doomsday submarine invoice did not reach unpaid-final removal"@)
            } else {
                Ok(KeylessRecoveryRunView { phase: KeylessRecoveryPhase::Finished, ..run })
            }
        },
        _ => Err(wrong_reply()),
    }
}

impl KeylessRecoveryRun {
    /// The end of a keyless case before its first action.
    pub fn new(
        case: DoomsdayCase,
        confirmations: u64,
        contract: &Json,
        provider_pubkey: &str,
        order_id: &str,
        controller_audit: &Json,
        effect_id: &str,
        refund_hex: &str,
        refund_id: &str,
    ) -> (run: KeylessRecoveryRun)
        ensures
            run@.phase == KeylessRecoveryPhase::RequireRefundKnown,
            run@.case == case,
            run@.confirmations == confirmations,
            run@.contract == contract@,
            run@.provider_pubkey == provider_pubkey@,
            run@.order_id == order_id@,
            run@.controller_audit == controller_audit@,
            run@.effect_id == effect_id@,
            run@.refund_hex == refund_hex@,
            run@.refund_id == refund_id@,
            run@.funding_id == Seq::<char>::empty(),
            run@.funding_hex == Seq::<char>::empty(),
            run@.funding_output == 0,
            run@.funding_confirmation_height == 0,
            run@.refund_lock_height == 0,
            run@.height == 0,
            run@.payment_hash == Seq::<char>::empty(),
    {
        KeylessRecoveryRun {
            phase: KeylessRecoveryPhase::RequireRefundKnown,
            case,
            confirmations,
            contract: contract.copy(),
            provider_pubkey: provider_pubkey.to_owned(),
            order_id: order_id.to_owned(),
            controller_audit: controller_audit.copy(),
            effect_id: effect_id.to_owned(),
            refund_hex: refund_hex.to_owned(),
            refund_id: refund_id.to_owned(),
            funding_id: String::new(),
            funding_hex: String::new(),
            funding_output: 0,
            funding_confirmation_height: 0,
            refund_lock_height: 0,
            height: 0,
            payment_hash: String::new(),
        }
    }

    /// What the journey asks for next.
    pub fn action(&self) -> (action: Action)
        ensures
            action@ == keyless_recovery_action(self@),
    {
        match self.phase {
            KeylessRecoveryPhase::RequireRefundKnown => perform_with_three(
                Task::RequireKnownTransaction,
                "doomsday-keyless-refund",
                self.refund_id.as_str(),
                self.refund_hex.as_str(),
            ),
            KeylessRecoveryPhase::DeriveFundingId => perform(Task::DeriveFundingId),
            KeylessRecoveryPhase::ReadConfirmation => perform_with_two(
                Task::ReadConfirmationHeight,
                "keyless-funding-confirmation",
                self.funding_id.as_str(),
            ),
            KeylessRecoveryPhase::ReadHeight => perform_with(
                Task::ReadHeight,
                "keyless-result-height",
            ),
            KeylessRecoveryPhase::RecordBroadcast => perform_with_two(
                Task::RecordEsploraEffect,
                self.refund_id.as_str(),
                self.refund_hex.as_str(),
            ),
            KeylessRecoveryPhase::MineConfirmations => Action::Mine(
                "bitcoin".to_owned(),
                self.confirmations,
                "doomsday-refund-confirmation",
            ),
            KeylessRecoveryPhase::VerifyOnBothNodes => perform_with_four(
                Task::VerifyOnBothNodes,
                self.funding_id.as_str(),
                decimal_text(self.funding_output as u64).as_str(),
                self.refund_id.as_str(),
                self.refund_hex.as_str(),
            ),
            KeylessRecoveryPhase::CheckInvoices => perform_with(
                Task::ListInvoices,
                "doomsday-terminal-invoice",
            ),
            KeylessRecoveryPhase::Finished => Action::Finish,
        }
    }

    /// Takes a reply: the journey goes on to its next phase, or ends with a message.
    #[verifier::rlimit(80)]
    pub fn advance(&mut self, reply: Reply) -> (moved: Result<(), String>)
        ensures
            match moved {
                Ok(_) => keyless_recovery_step(
                    old(self)@,
                    reply@,
                ) == Ok::<KeylessRecoveryRunView, Seq<char>>(final(self)@),
                Err(message) => {
                    &&& keyless_recovery_step(
                        old(self)@,
                        reply@,
                    ) == Err::<KeylessRecoveryRunView, Seq<char>>(message@)
                    &&& final(self)@ == old(self)@
                },
            },
    {
        match (self.phase, reply) {
            (KeylessRecoveryPhase::RequireRefundKnown, Reply::Document(Some(report))) => {
                let known: () = verify_known_bitcoin_transaction(
                    &report,
                    self.refund_id.as_str(),
                    Some(self.refund_hex.as_str()),
                )?;
                self.phase = KeylessRecoveryPhase::DeriveFundingId;
                Ok(())
            },
            (KeylessRecoveryPhase::DeriveFundingId, Reply::Texts(texts)) => {
                if texts.len() != 1 {
                    return Err(wrong_reply_text());
                }
                let funding: (String, u32) = source_funding(
                    &self.contract,
                    "keyless funding output is not bounded",
                )?;
                self.funding_id = texts[0].clone();
                self.funding_hex = funding.0;
                self.funding_output = funding.1;
                self.phase = KeylessRecoveryPhase::ReadConfirmation;
                Ok(())
            },
            (KeylessRecoveryPhase::ReadConfirmation, Reply::Number(value)) => {
                let height: u32 = narrow_height(value, "funding confirmation height exceeds u32")?;
                let terms: BitcoinTerms = bitcoin_terms(&self.contract, "source")?;
                self.refund_lock_height = terms.refund_lock_height;
                self.funding_confirmation_height = height;
                self.phase = KeylessRecoveryPhase::ReadHeight;
                Ok(())
            },
            (KeylessRecoveryPhase::ReadHeight, Reply::Number(value)) => {
                let height: u32 = narrow_height(value, "Bitcoin chain height exceeds u32")?;
                if height < self.refund_lock_height {
                    return Err("keyless broadcaster accepted a refund before timeout".to_owned());
                }
                let hash: String = match self.contract.text_at("payment_hash") {
                    Some(hash) => hash.to_owned(),
                    None => {
                        return Err("keyless contract has no payment hash".to_owned());
                    },
                };
                self.payment_hash = hash;
                self.height = height;
                self.phase = KeylessRecoveryPhase::RecordBroadcast;
                Ok(())
            },
            (KeylessRecoveryPhase::RecordBroadcast, Reply::Done) => {
                self.phase = KeylessRecoveryPhase::MineConfirmations;
                Ok(())
            },
            (KeylessRecoveryPhase::MineConfirmations, Reply::Done) => {
                self.phase = KeylessRecoveryPhase::VerifyOnBothNodes;
                Ok(())
            },
            (KeylessRecoveryPhase::VerifyOnBothNodes, Reply::Done) => {
                self.phase = KeylessRecoveryPhase::CheckInvoices;
                Ok(())
            },
            (KeylessRecoveryPhase::CheckInvoices, Reply::Document(Some(listing))) => {
                if some_invoice(&listing, self.payment_hash.as_str()) {
                    return Err(
                        "doomsday submarine invoice did not reach unpaid-final removal".to_owned(),
                    );
                }
                self.phase = KeylessRecoveryPhase::Finished;
                Ok(())
            },
            _ => Err(wrong_reply_text()),
        }
    }
}

/// Whether each entry of a trace leads to the one after it, from the first phase on.
pub open spec fn is_keyless_recovery_trace(
    trace: Seq<(KeylessRecoveryRunView, ReplyView)>,
) -> bool {
    &&& trace.len() > 0
    &&& trace[0].0.phase == KeylessRecoveryPhase::RequireRefundKnown
    &&& forall|i: int|
        0 <= i < trace.len() - 1 ==> keyless_recovery_step(
            (#[trigger] trace[i]).0,
            trace[i].1,
        ) == Ok::<
            KeylessRecoveryRunView,
            Seq<char>,
        >(trace[i + 1].0)
}

/// Each reply takes the end of a keyless case forward, never back and never in place.
pub proof fn law_keyless_recovery_moves_forward(run: KeylessRecoveryRunView, reply: ReplyView)
    requires
        keyless_recovery_step(run, reply) is Ok,
    ensures
        run.phase.rank() < keyless_recovery_step(run, reply)->Ok_0.phase.rank(),
{
}

/// Which replies take the end of a keyless case on, and to which phase: in each phase exactly the
/// replies that pass every check of that phase, and no others.
pub proof fn law_keyless_recovery_goes_on_only_when_answered(
    run: KeylessRecoveryRunView,
    reply: ReplyView,
)
    ensures
        ({
            let next = keyless_recovery_step(run, reply);
            match run.phase {
                KeylessRecoveryPhase::RequireRefundKnown => {
                    &&& next is Ok <==> {
                        &&& reply is Document
                        &&& reply->Document_0 is Some
                        &&& known_transaction_reading(
                            reply->Document_0->0,
                            run.refund_id,
                            Some(run.refund_hex),
                        ) is Ok
                    }
                    &&& next is Ok ==> next->Ok_0.phase == KeylessRecoveryPhase::DeriveFundingId
                },
                KeylessRecoveryPhase::DeriveFundingId => {
                    &&& next is Ok <==> {
                        &&& reply is Texts
                        &&& reply->Texts_0.len() == 1
                        &&& source_funding_reading(
                            run.contract,
                            "keyless funding output is not bounded"@,
                        ) is Ok
                    }
                    &&& next is Ok ==> next->Ok_0.phase == KeylessRecoveryPhase::ReadConfirmation
                },
                KeylessRecoveryPhase::ReadConfirmation => {
                    &&& next is Ok <==> {
                        &&& reply is Number
                        &&& height_reading(
                            reply->Number_0,
                            "funding confirmation height exceeds u32"@,
                        ) is Ok
                        &&& terms_reading(run.contract, "source"@) is Ok
                    }
                    &&& next is Ok ==> next->Ok_0.phase == KeylessRecoveryPhase::ReadHeight
                },
                KeylessRecoveryPhase::ReadHeight => {
                    &&& next is Ok <==> {
                        &&& reply is Number
                        &&& height_reading(
                            reply->Number_0,
                            "Bitcoin chain height exceeds u32"@,
                        ) is Ok
                        &&& height_reading(
                            reply->Number_0,
                            "Bitcoin chain height exceeds u32"@,
                        )->Ok_0 >= run.refund_lock_height
                        &&& member_text(run.contract, "payment_hash"@) is Some
                    }
                    &&& next is Ok ==> next->Ok_0.phase == KeylessRecoveryPhase::RecordBroadcast
                },
                KeylessRecoveryPhase::RecordBroadcast => {
                    &&& next is Ok <==> reply is Done
                    &&& next is Ok ==> next->Ok_0.phase == KeylessRecoveryPhase::MineConfirmations
                },
                KeylessRecoveryPhase::MineConfirmations => {
                    &&& next is Ok <==> reply is Done
                    &&& next is Ok ==> next->Ok_0.phase == KeylessRecoveryPhase::VerifyOnBothNodes
                },
                KeylessRecoveryPhase::VerifyOnBothNodes => {
                    &&& next is Ok <==> reply is Done
                    &&& next is Ok ==> next->Ok_0.phase == KeylessRecoveryPhase::CheckInvoices
                },
                KeylessRecoveryPhase::CheckInvoices => {
                    &&& next is Ok <==> {
                        &&& reply is Document
                        &&& reply->Document_0 is Some
                        &&& !(lists_hash(reply->Document_0->0, run.payment_hash))
                    }
                    &&& next is Ok ==> next->Ok_0.phase == KeylessRecoveryPhase::Finished
                },
                KeylessRecoveryPhase::Finished => next is Err,
            }
        }),
{
}

/// The reply that a trace of the end of a keyless case holds for a phase.
pub open spec fn keyless_recovery_told(
    trace: Seq<(KeylessRecoveryRunView, ReplyView)>,
    phase: KeylessRecoveryPhase,
) -> ReplyView {
    trace[choose|i: int| 0 <= i < trace.len() && (#[trigger] trace[i]).0.phase == phase].1
}

/// The values that a run of the end of a keyless case holds, by the replies that gave them: each
/// stays as the reply to one phase gave it, or as the run started with it.
pub open spec fn keyless_recovery_holds(
    trace: Seq<(KeylessRecoveryRunView, ReplyView)>,
    run: KeylessRecoveryRunView,
) -> bool {
    let start = trace[0].0;
    let funding_id = keyless_recovery_told(trace, KeylessRecoveryPhase::DeriveFundingId)->Texts_0[0];
    let funding_hex = source_funding_reading(start.contract, "keyless funding output is not bounded"@)->Ok_0.0;
    let funding_output = source_funding_reading(start.contract, "keyless funding output is not bounded"@)->Ok_0.1;
    let funding_confirmation_height = height_reading(
        keyless_recovery_told(trace, KeylessRecoveryPhase::ReadConfirmation)->Number_0,
        "funding confirmation height exceeds u32"@,
    )->Ok_0;
    let refund_lock_height = terms_reading(start.contract, "source"@)->Ok_0.refund_lock_height;
    let height = height_reading(
        keyless_recovery_told(trace, KeylessRecoveryPhase::ReadHeight)->Number_0,
        "Bitcoin chain height exceeds u32"@,
    )->Ok_0;
    let payment_hash = member_text(start.contract, "payment_hash"@)->0;
    &&& run.case == start.case
    &&& run.confirmations == start.confirmations
    &&& run.contract == start.contract
    &&& run.provider_pubkey == start.provider_pubkey
    &&& run.order_id == start.order_id
    &&& run.controller_audit == start.controller_audit
    &&& run.effect_id == start.effect_id
    &&& run.refund_hex == start.refund_hex
    &&& run.refund_id == start.refund_id
    &&& run.phase.rank() > KeylessRecoveryPhase::DeriveFundingId.rank()
        ==> run.funding_id == funding_id
    &&& run.phase.rank() > KeylessRecoveryPhase::DeriveFundingId.rank()
        ==> run.funding_hex == funding_hex
    &&& run.phase.rank() > KeylessRecoveryPhase::DeriveFundingId.rank()
        ==> run.funding_output == funding_output
    &&& run.phase.rank() > KeylessRecoveryPhase::ReadConfirmation.rank()
        ==> run.funding_confirmation_height == funding_confirmation_height
    &&& run.phase.rank() > KeylessRecoveryPhase::ReadConfirmation.rank()
        ==> run.refund_lock_height == refund_lock_height
    &&& run.phase.rank() > KeylessRecoveryPhase::ReadHeight.rank() ==> run.height == height
    &&& run.phase.rank() > KeylessRecoveryPhase::ReadHeight.rank()
        ==> run.payment_hash == payment_hash
}

/// No phase of the end of a keyless case comes twice in a trace.
proof fn lemma_keyless_recovery_told_once(
    trace: Seq<(KeylessRecoveryRunView, ReplyView)>,
    place: int,
)
    requires
        is_keyless_recovery_trace(trace),
        0 <= place < trace.len(),
    ensures
        keyless_recovery_told(trace, trace[place].0.phase) == trace[place].1,
{
    let phase = trace[place].0.phase;
    let other = choose|i: int| 0 <= i < trace.len() && (#[trigger] trace[i]).0.phase == phase;
    assert(trace[place].0.phase == phase);
    if other != place {
        let (early, late) = if other < place {
            (other, place)
        } else {
            (place, other)
        };
        assert forall|run: KeylessRecoveryRunView, reply: ReplyView|
            (#[trigger] keyless_recovery_step(run, reply)) is Ok implies run.phase.rank() < keyless_recovery_step(
            run,
            reply,
        )->Ok_0.phase.rank() by {
            law_keyless_recovery_moves_forward(run, reply);
        }
        lemma_ranks_rise(
            trace,
            |run: KeylessRecoveryRunView, reply: ReplyView| keyless_recovery_step(run, reply),
            |run: KeylessRecoveryRunView| run.phase.rank(),
            early,
            late,
        );
    }
}

/// A reply keeps what the end of a keyless case holds, and adds what it tells.
proof fn lemma_keyless_recovery_holds_on(
    trace: Seq<(KeylessRecoveryRunView, ReplyView)>,
    run: KeylessRecoveryRunView,
    reply: ReplyView,
)
    requires
        keyless_recovery_holds(trace, run),
        keyless_recovery_told(trace, run.phase) == reply,
        keyless_recovery_step(run, reply) is Ok,
    ensures
        keyless_recovery_holds(trace, keyless_recovery_step(run, reply)->Ok_0),
{
    let next = keyless_recovery_step(run, reply)->Ok_0;
    match run.phase {
        KeylessRecoveryPhase::RequireRefundKnown => assert(keyless_recovery_holds(trace, next)),
        KeylessRecoveryPhase::DeriveFundingId => assert(keyless_recovery_holds(trace, next)),
        KeylessRecoveryPhase::ReadConfirmation => assert(keyless_recovery_holds(trace, next)),
        KeylessRecoveryPhase::ReadHeight => assert(keyless_recovery_holds(trace, next)),
        KeylessRecoveryPhase::RecordBroadcast => assert(keyless_recovery_holds(trace, next)),
        KeylessRecoveryPhase::MineConfirmations => assert(keyless_recovery_holds(trace, next)),
        KeylessRecoveryPhase::VerifyOnBothNodes => assert(keyless_recovery_holds(trace, next)),
        KeylessRecoveryPhase::CheckInvoices => assert(keyless_recovery_holds(trace, next)),
        KeylessRecoveryPhase::Finished => assert(keyless_recovery_holds(trace, next)),
    }
}

/// What the end of a keyless case has been told, it keeps: at every place of a trace each value
/// that the run holds is the one that the reply to the phase that asks for it gave, or the one that
/// the run started with.
pub proof fn law_keyless_recovery_keeps_what_it_was_told(
    trace: Seq<(KeylessRecoveryRunView, ReplyView)>,
    last: int,
)
    requires
        is_keyless_recovery_trace(trace),
        0 <= last < trace.len(),
    ensures
        keyless_recovery_holds(trace, trace[last].0),
    decreases last,
{
    if last > 0 {
        let before = last - 1;
        law_keyless_recovery_keeps_what_it_was_told(trace, before);
        lemma_keyless_recovery_told_once(trace, before);
        assert(keyless_recovery_step(trace[before].0, trace[before].1) == Ok::<KeylessRecoveryRunView, Seq<char>>(
            trace[before + 1].0,
        ));
        lemma_keyless_recovery_holds_on(trace, trace[before].0, trace[before].1);
    }
}

/// What the end of a keyless case asks for in each phase, in terms of the replies before it: the
/// values in a request are those that the replies to the named phases gave, or those that the run
/// started with.
pub proof fn law_keyless_recovery_asks_with_what_it_was_told(
    trace: Seq<(KeylessRecoveryRunView, ReplyView)>,
    last: int,
)
    requires
        is_keyless_recovery_trace(trace),
        0 <= last < trace.len(),
    ensures
        ({
            let start = trace[0].0;
            let funding_id = keyless_recovery_told(trace, KeylessRecoveryPhase::DeriveFundingId)->Texts_0[0];
            let funding_output = source_funding_reading(
                start.contract,
                "keyless funding output is not bounded"@,
            )->Ok_0.1;
            let action = keyless_recovery_action(trace[last].0);
            match trace[last].0.phase {
                KeylessRecoveryPhase::RequireRefundKnown => action == ActionView::Perform(
                    Task::RequireKnownTransaction,
                    seq!["doomsday-keyless-refund"@, start.refund_id, start.refund_hex],
                ),
                KeylessRecoveryPhase::DeriveFundingId => action == ActionView::Perform(
                    Task::DeriveFundingId,
                    seq![],
                ),
                KeylessRecoveryPhase::ReadConfirmation => action == ActionView::Perform(
                    Task::ReadConfirmationHeight,
                    seq!["keyless-funding-confirmation"@, funding_id],
                ),
                KeylessRecoveryPhase::ReadHeight => action == ActionView::Perform(
                    Task::ReadHeight,
                    seq!["keyless-result-height"@],
                ),
                KeylessRecoveryPhase::RecordBroadcast => action == ActionView::Perform(
                    Task::RecordEsploraEffect,
                    seq![start.refund_id, start.refund_hex],
                ),
                KeylessRecoveryPhase::MineConfirmations => action == ActionView::Mine(
                    "bitcoin"@,
                    start.confirmations,
                    "doomsday-refund-confirmation"@,
                ),
                KeylessRecoveryPhase::VerifyOnBothNodes => action == ActionView::Perform(
                    Task::VerifyOnBothNodes,
                    seq![
                        funding_id,
                        decimal(funding_output as nat),
                        start.refund_id,
                        start.refund_hex,
                    ],
                ),
                KeylessRecoveryPhase::CheckInvoices => action == ActionView::Perform(
                    Task::ListInvoices,
                    seq!["doomsday-terminal-invoice"@],
                ),
                KeylessRecoveryPhase::Finished => action == ActionView::Finish,
            }
        }),
{
    law_keyless_recovery_keeps_what_it_was_told(trace, last);
}

/// What the end of a keyless case reports at its end is what it was told on the way: each
/// identifier in the report is the one that the reply to the named phase gave, or one that the run
/// started with.
pub proof fn law_keyless_recovery_doc_names_what_it_was_told(
    trace: Seq<(KeylessRecoveryRunView, ReplyView)>,
    last: int,
)
    requires
        is_keyless_recovery_trace(trace),
        0 <= last < trace.len(),
        trace[last].0.phase == KeylessRecoveryPhase::Finished,
    ensures
        ({
            let start = trace[0].0;
            let funding_id = keyless_recovery_told(trace, KeylessRecoveryPhase::DeriveFundingId)->Texts_0[0];
            let funding_output = source_funding_reading(
                start.contract,
                "keyless funding output is not bounded"@,
            )->Ok_0.1;
            let funding_confirmation_height = height_reading(
                keyless_recovery_told(trace, KeylessRecoveryPhase::ReadConfirmation)->Number_0,
                "funding confirmation height exceeds u32"@,
            )->Ok_0;
            let refund_lock_height = terms_reading(start.contract, "source"@)->Ok_0.refund_lock_height;
            let payment_hash = member_text(start.contract, "payment_hash"@)->0;
            keyless_recovery_doc(trace[last].0) == JsonView::Object(
                no_members().insert("proof_class"@, text_doc("keyless_presigned_regtest_exit"@)).insert("provider_pubkey"@, text_doc(start.provider_pubkey)).insert("order_id"@, text_doc(start.order_id)).insert("funding_transaction_id"@, text_doc(funding_id)).insert("funding_output_index"@, number_doc(funding_output as u64)).insert("refund_transaction_id"@, text_doc(start.refund_id)).insert("funding_confirmation_height"@, number_doc(funding_confirmation_height as u64)).insert("refund_lock_height"@, number_doc(refund_lock_height as u64)).insert("payment_hash"@, text_doc(payment_hash)).insert("outcome"@, text_doc("refunded"@)).insert("controller_audit"@, start.controller_audit).insert(
                    "checks"@,
                    JsonView::Object(
                        no_members().insert(
                            "fresh_requester_process_restored_before_relay"@,
                            JsonView::Bool(true),
                        ).insert("relay_connections_after_restore"@, number_doc(0)).insert("provider_process_absent"@, JsonView::Bool(true)).insert("relay_processes_absent"@, JsonView::Bool(true)).insert("presigned_before_contract"@, JsonView::Bool(true)).insert("presigned_before_funding"@, JsonView::Bool(true)).insert("wallet_sign_after_contract"@, JsonView::Bool(false)).insert("broadcast_before_timeout"@, JsonView::Bool(false)).insert("verified_local_chain_observation"@, JsonView::Bool(true)).insert(
                            "verified_local_lightning_observation"@,
                            JsonView::Bool(true),
                        ).insert("exact_outpoint_spent"@, JsonView::Bool(true)).insert(
                            "both_bitcoind_nodes_agree"@,
                            JsonView::Bool(true),
                        ).insert("transaction_confirmed"@, JsonView::Bool(true)).insert(
                            "lightning_unpaid_final"@,
                            JsonView::Bool(true),
                        ).insert("keyless_process"@, JsonView::Bool(true)),
                    ),
                ),
            )
        }),
{
    law_keyless_recovery_keeps_what_it_was_told(trace, last);
}

/// The broadcast is recorded only where the committed height had been reached.
pub proof fn law_keyless_refund_waits_for_its_timeout(
    trace: Seq<(KeylessRecoveryRunView, ReplyView)>,
    last: int,
)
    requires
        is_keyless_recovery_trace(trace),
        0 <= last < trace.len(),
        trace[last].0.phase == KeylessRecoveryPhase::RecordBroadcast,
    ensures
        exists|i: int|
            0 <= i < last && (#[trigger] trace[i]).0.phase == KeylessRecoveryPhase::ReadHeight &&
                (trace[i].1 matches ReplyView::Number(height) && trace[i].0.refund_lock_height <=
                height <= u32::MAX),
{
    let i = lemma_milestone(
        trace,
        |run: KeylessRecoveryRunView, reply: ReplyView| keyless_recovery_step(run, reply),
        |run: KeylessRecoveryRunView| run.phase.rank(),
        3,
        last,
    );
    assert(trace[i].0.phase == KeylessRecoveryPhase::ReadHeight);
    assert(keyless_recovery_step(trace[i].0, trace[i].1) == Ok::<KeylessRecoveryRunView,
        Seq<char>>(trace[i + 1].0));
}

/// The proof of a keyless case that was recovered.
pub open spec fn keyless_recovery_doc(run: KeylessRecoveryRunView) -> JsonView {
    JsonView::Object(
        no_members().insert("proof_class"@, text_doc("keyless_presigned_regtest_exit"@)).insert(
            "provider_pubkey"@,
            text_doc(run.provider_pubkey),
        ).insert("order_id"@, text_doc(run.order_id)).insert(
            "funding_transaction_id"@,
            text_doc(run.funding_id),
        ).insert("funding_output_index"@, number_doc(run.funding_output as u64)).insert(
            "refund_transaction_id"@,
            text_doc(run.refund_id),
        ).insert(
            "funding_confirmation_height"@,
            number_doc(run.funding_confirmation_height as u64),
        ).insert("refund_lock_height"@, number_doc(run.refund_lock_height as u64)).insert(
            "payment_hash"@,
            text_doc(run.payment_hash),
        ).insert("outcome"@, text_doc("refunded"@)).insert(
            "controller_audit"@,
            run.controller_audit,
        ).insert(
            "checks"@,
            JsonView::Object(
                no_members().insert(
                    "fresh_requester_process_restored_before_relay"@,
                    JsonView::Bool(true),
                ).insert("relay_connections_after_restore"@, number_doc(0)).insert(
                    "provider_process_absent"@,
                    JsonView::Bool(true),
                ).insert("relay_processes_absent"@, JsonView::Bool(true)).insert(
                    "presigned_before_contract"@,
                    JsonView::Bool(true),
                ).insert("presigned_before_funding"@, JsonView::Bool(true)).insert(
                    "wallet_sign_after_contract"@,
                    JsonView::Bool(false),
                ).insert("broadcast_before_timeout"@, JsonView::Bool(false)).insert(
                    "verified_local_chain_observation"@,
                    JsonView::Bool(true),
                ).insert("verified_local_lightning_observation"@, JsonView::Bool(true)).insert(
                    "exact_outpoint_spent"@,
                    JsonView::Bool(true),
                ).insert("both_bitcoind_nodes_agree"@, JsonView::Bool(true)).insert(
                    "transaction_confirmed"@,
                    JsonView::Bool(true),
                ).insert("lightning_unpaid_final"@, JsonView::Bool(true)).insert(
                    "keyless_process"@,
                    JsonView::Bool(true),
                ),
            ),
        ),
    )
}

impl KeylessRecoveryRun {
    fn recovery_document(&self) -> (document: Json)
        ensures
            document@ == keyless_recovery_doc(self@),
    {
        Json::object(
            JsonObject::new().with_text("proof_class", "keyless_presigned_regtest_exit").with_text(
                "provider_pubkey",
                self.provider_pubkey.as_str(),
            ).with_text("order_id", self.order_id.as_str()).with_text(
                "funding_transaction_id",
                self.funding_id.as_str(),
            ).with_number("funding_output_index", self.funding_output as u64).with_text(
                "refund_transaction_id",
                self.refund_id.as_str(),
            ).with_number(
                "funding_confirmation_height",
                self.funding_confirmation_height as u64,
            ).with_number("refund_lock_height", self.refund_lock_height as u64).with_text(
                "payment_hash",
                self.payment_hash.as_str(),
            ).with_text("outcome", "refunded").with(
                "controller_audit",
                self.controller_audit.copy(),
            ).with(
                "checks",
                Json::object(
                    JsonObject::new().with_bool(
                        "fresh_requester_process_restored_before_relay",
                        true,
                    ).with_number("relay_connections_after_restore", 0).with_bool(
                        "provider_process_absent",
                        true,
                    ).with_bool("relay_processes_absent", true).with_bool(
                        "presigned_before_contract",
                        true,
                    ).with_bool("presigned_before_funding", true).with_bool(
                        "wallet_sign_after_contract",
                        false,
                    ).with_bool("broadcast_before_timeout", false).with_bool(
                        "verified_local_chain_observation",
                        true,
                    ).with_bool("verified_local_lightning_observation", true).with_bool(
                        "exact_outpoint_spent",
                        true,
                    ).with_bool("both_bitcoind_nodes_agree", true).with_bool(
                        "transaction_confirmed",
                        true,
                    ).with_bool("lightning_unpaid_final", true).with_bool("keyless_process", true),
                ),
            ),
        )
    }

    /// The proof of a keyless case that was recovered; nothing before it is over.
    pub fn recovered(&self) -> (document: Option<Json>)
        ensures
            match document {
                Some(document) => self@.phase == KeylessRecoveryPhase::Finished && document@ == keyless_recovery_doc(self@),
                None => self@.phase != KeylessRecoveryPhase::Finished,
            },
    {
        if self.phase == KeylessRecoveryPhase::Finished {
            Some(self.recovery_document())
        } else {
            None
        }
    }
}

/// The phases of the recovery of a reverse case, in their order.
#[derive(Clone, Copy, Debug, PartialEq, Eq, Structural)]
pub enum ReverseRecoveryPhase {
    ExchangeFirst,
    AwaitHeld,
    AwaitLockTerms,
    SayLockVerified,
    ExchangeLock,
    AwaitFunding,
    MineFunding,
    AwaitFinal,
    LoadSecret,
    ReadInvoice,
    AwaitAttempt,
    ReadHeight,
    BuildClaim,
    SayClaimPending,
    ExchangeClaimPending,
    ObserveHeldPayment,
    PlanClaim,
    SignClaim,
    RecordClaim,
    BroadcastClaim,
    SayClaimed,
    ExchangeClaimed,
    MineClaim,
    AwaitSettlement,
    AwaitPaid,
    AwaitCompleted,
    AwaitPaymentEnd,
    ReadUnspent,
    AwaitClose,
    IngestClose,
    RemoveSecret,
    Finished,
}

impl ReverseRecoveryPhase {
    /// The place of the phase in their order.
    pub open spec fn rank(self) -> int {
        match self {
            ReverseRecoveryPhase::ExchangeFirst => 0,
            ReverseRecoveryPhase::AwaitHeld => 1,
            ReverseRecoveryPhase::AwaitLockTerms => 2,
            ReverseRecoveryPhase::SayLockVerified => 3,
            ReverseRecoveryPhase::ExchangeLock => 4,
            ReverseRecoveryPhase::AwaitFunding => 5,
            ReverseRecoveryPhase::MineFunding => 6,
            ReverseRecoveryPhase::AwaitFinal => 7,
            ReverseRecoveryPhase::LoadSecret => 8,
            ReverseRecoveryPhase::ReadInvoice => 9,
            ReverseRecoveryPhase::AwaitAttempt => 10,
            ReverseRecoveryPhase::ReadHeight => 11,
            ReverseRecoveryPhase::BuildClaim => 12,
            ReverseRecoveryPhase::SayClaimPending => 13,
            ReverseRecoveryPhase::ExchangeClaimPending => 14,
            ReverseRecoveryPhase::ObserveHeldPayment => 15,
            ReverseRecoveryPhase::PlanClaim => 16,
            ReverseRecoveryPhase::SignClaim => 17,
            ReverseRecoveryPhase::RecordClaim => 18,
            ReverseRecoveryPhase::BroadcastClaim => 19,
            ReverseRecoveryPhase::SayClaimed => 20,
            ReverseRecoveryPhase::ExchangeClaimed => 21,
            ReverseRecoveryPhase::MineClaim => 22,
            ReverseRecoveryPhase::AwaitSettlement => 23,
            ReverseRecoveryPhase::AwaitPaid => 24,
            ReverseRecoveryPhase::AwaitCompleted => 25,
            ReverseRecoveryPhase::AwaitPaymentEnd => 26,
            ReverseRecoveryPhase::ReadUnspent => 27,
            ReverseRecoveryPhase::AwaitClose => 28,
            ReverseRecoveryPhase::IngestClose => 29,
            ReverseRecoveryPhase::RemoveSecret => 30,
            ReverseRecoveryPhase::Finished => 31,
        }
    }
}

/// The claim of a reverse swap whose relays are gone, over the direct channel to the provider.
pub struct ReverseRecoveryRun {
    pub phase: ReverseRecoveryPhase,
    pub case: DoomsdayCase,
    pub confirmations: u64,
    pub contract: Json,
    pub provider_pubkey: String,
    pub order_id: String,
    pub controller_audit: Json,
    pub direct_rounds: u32,
    pub funding_id: String,
    pub funding_output: u32,
    pub payment_hash: String,
    pub invoice: String,
    pub height: u32,
    pub claim_value_sat: u64,
    pub claim_hex: String,
    pub claim_id: String,
    pub effect_id: String,
    pub close_id: String,
}

/// The claim of a reverse swap whose relays are gone, over the direct channel to the provider.
#[verifier::ext_equal]
pub struct ReverseRecoveryRunView {
    pub phase: ReverseRecoveryPhase,
    pub case: DoomsdayCase,
    pub confirmations: u64,
    pub contract: JsonView,
    pub provider_pubkey: Seq<char>,
    pub order_id: Seq<char>,
    pub controller_audit: JsonView,
    pub direct_rounds: u32,
    pub funding_id: Seq<char>,
    pub funding_output: u32,
    pub payment_hash: Seq<char>,
    pub invoice: Seq<char>,
    pub height: u32,
    pub claim_value_sat: u64,
    pub claim_hex: Seq<char>,
    pub claim_id: Seq<char>,
    pub effect_id: Seq<char>,
    pub close_id: Seq<char>,
}

impl View for ReverseRecoveryRun {
    type V = ReverseRecoveryRunView;

    open spec fn view(&self) -> ReverseRecoveryRunView {
        ReverseRecoveryRunView {
            phase: self.phase,
            case: self.case,
            confirmations: self.confirmations,
            contract: self.contract@,
            provider_pubkey: self.provider_pubkey@,
            order_id: self.order_id@,
            controller_audit: self.controller_audit@,
            direct_rounds: self.direct_rounds,
            funding_id: self.funding_id@,
            funding_output: self.funding_output,
            payment_hash: self.payment_hash@,
            invoice: self.invoice@,
            height: self.height,
            claim_value_sat: self.claim_value_sat,
            claim_hex: self.claim_hex@,
            claim_id: self.claim_id@,
            effect_id: self.effect_id@,
            close_id: self.close_id@,
        }
    }
}

/// What the recovery of a reverse case asks for next.
pub open spec fn reverse_recovery_action(run: ReverseRecoveryRunView) -> ActionView {
    match run.phase {
        ReverseRecoveryPhase::ExchangeFirst => ActionView::Perform(Task::ExchangeDirect, seq![]),
        ReverseRecoveryPhase::AwaitHeld => ActionView::AwaitDirectState("lightning_htlcs_held"@),
        ReverseRecoveryPhase::AwaitLockTerms => ActionView::AwaitDirectState(
            "provider_lock_terms_ready"@,
        ),
        ReverseRecoveryPhase::SayLockVerified => ActionView::SayDirect(
            "requester_lock_verified"@,
            no_members(),
        ),
        ReverseRecoveryPhase::ExchangeLock => ActionView::Perform(Task::ExchangeDirect, seq![]),
        ReverseRecoveryPhase::AwaitFunding => ActionView::AwaitDirectState(
            "provider_funding_broadcast"@,
        ),
        ReverseRecoveryPhase::MineFunding => ActionView::Mine(
            "bitcoin"@,
            1,
            "doomsday-reverse-funding"@,
        ),
        ReverseRecoveryPhase::AwaitFinal => ActionView::AwaitDirectState("funding_final"@),
        ReverseRecoveryPhase::LoadSecret => ActionView::Perform(
            Task::LoadSecret,
            seq![run.case.journey_label()],
        ),
        ReverseRecoveryPhase::ReadInvoice => ActionView::Perform(Task::ReadFundingInvoice, seq![]),
        ReverseRecoveryPhase::AwaitAttempt => ActionView::Perform(
            Task::AwaitPaymentAttempt,
            seq![run.invoice, run.payment_hash],
        ),
        ReverseRecoveryPhase::ReadHeight => ActionView::Perform(
            Task::ReadHeight,
            seq!["doomsday-reverse-height"@],
        ),
        ReverseRecoveryPhase::BuildClaim => ActionView::Perform(
            Task::BuildClaim,
            seq![
                run.funding_id,
                decimal(run.funding_output as nat),
                decimal(run.claim_value_sat as nat),
            ],
        ),
        ReverseRecoveryPhase::SayClaimPending => ActionView::SayDirect(
            "requester_claim_pending"@,
            no_members(),
        ),
        ReverseRecoveryPhase::ExchangeClaimPending => ActionView::Perform(
            Task::ExchangeDirect,
            seq![],
        ),
        ReverseRecoveryPhase::ObserveHeldPayment => ActionView::Perform(
            Task::ObserveHeldPayment,
            seq![run.payment_hash],
        ),
        ReverseRecoveryPhase::PlanClaim => ActionView::Plan(
            reverse_standing(run.height, false, true),
        ),
        ReverseRecoveryPhase::SignClaim => ActionView::Perform(Task::SignExit, seq![run.claim_hex]),
        ReverseRecoveryPhase::RecordClaim => ActionView::Perform(
            Task::RecordSignedExit,
            seq![run.claim_id, run.claim_hex],
        ),
        ReverseRecoveryPhase::BroadcastClaim => ActionView::Perform(
            Task::BroadcastBitcoin,
            seq!["doomsday-reverse-claim"@, run.claim_hex, run.claim_id],
        ),
        ReverseRecoveryPhase::SayClaimed => ActionView::SayDirect(
            "requester_claimed"@,
            no_members().insert("transaction_id"@, text_doc(run.claim_id)),
        ),
        ReverseRecoveryPhase::ExchangeClaimed => ActionView::Perform(Task::ExchangeDirect, seq![]),
        ReverseRecoveryPhase::MineClaim => ActionView::Mine(
            "bitcoin"@,
            run.confirmations,
            "doomsday-reverse-claim"@,
        ),
        ReverseRecoveryPhase::AwaitSettlement => ActionView::AwaitDirectState(
            "lightning_settlement_pending"@,
        ),
        ReverseRecoveryPhase::AwaitPaid => ActionView::AwaitDirectState("lightning_paid"@),
        ReverseRecoveryPhase::AwaitCompleted => ActionView::AwaitDirectState("completed"@),
        ReverseRecoveryPhase::AwaitPaymentEnd => ActionView::Perform(
            Task::AwaitPaymentEnd,
            seq![run.invoice, run.payment_hash],
        ),
        ReverseRecoveryPhase::ReadUnspent => ActionView::Perform(
            Task::ReadUnspent,
            seq!["doomsday-reverse-outpoint"@, run.funding_id, decimal(run.funding_output as nat)],
        ),
        ReverseRecoveryPhase::AwaitClose => ActionView::Perform(Task::AwaitDirectClose, seq![]),
        ReverseRecoveryPhase::IngestClose => ActionView::AwaitClose(
            CloseCheckView {
                outcome: "completed"@,
                bitcoin: Some(run.claim_id),
                liquid: None,
                lightning: Some(
                    LightningView::Outgoing(run.invoice, run.payment_hash, "complete"@),
                ),
            },
        ),
        ReverseRecoveryPhase::RemoveSecret => ActionView::Perform(
            Task::RemoveSecret,
            seq![run.case.journey_label()],
        ),
        ReverseRecoveryPhase::Finished => ActionView::Finish,
    }
}

/// Where a reply takes the recovery of a reverse case.
pub open spec fn reverse_recovery_step(run: ReverseRecoveryRunView, reply: ReplyView) -> Result<
    ReverseRecoveryRunView,
    Seq<char>,
> {
    match (run.phase, reply) {
        (ReverseRecoveryPhase::ExchangeFirst, ReplyView::Done) => Ok(
            ReverseRecoveryRunView {
                phase: ReverseRecoveryPhase::AwaitHeld,
                direct_rounds: more_rounds(run.direct_rounds, 1),
                ..run
            },
        ),
        (ReverseRecoveryPhase::AwaitHeld, ReplyView::Direct { id, content, rounds, .. }) => Ok(
            ReverseRecoveryRunView {
                phase: ReverseRecoveryPhase::AwaitLockTerms,
                direct_rounds: more_rounds(run.direct_rounds, rounds),
                ..run
            },
        ),
        (ReverseRecoveryPhase::AwaitLockTerms, ReplyView::Direct { id, content, rounds, .. }) => Ok(
            ReverseRecoveryRunView {
                phase: ReverseRecoveryPhase::SayLockVerified,
                direct_rounds: more_rounds(run.direct_rounds, rounds),
                ..run
            },
        ),
        (ReverseRecoveryPhase::SayLockVerified, ReplyView::Record { .. }) => Ok(
            ReverseRecoveryRunView { phase: ReverseRecoveryPhase::ExchangeLock, ..run },
        ),
        (ReverseRecoveryPhase::ExchangeLock, ReplyView::Done) => Ok(
            ReverseRecoveryRunView {
                phase: ReverseRecoveryPhase::AwaitFunding,
                direct_rounds: more_rounds(run.direct_rounds, 1),
                ..run
            },
        ),
        (ReverseRecoveryPhase::AwaitFunding, ReplyView::Direct { id, content, rounds, .. }) => match outpoint_reading(
            content,
        ) {
            Err(message) => Err(message),
            Ok(found) => Ok(
                ReverseRecoveryRunView {
                    phase: ReverseRecoveryPhase::MineFunding,
                    funding_id: found.0,
                    funding_output: found.1,
                    direct_rounds: more_rounds(run.direct_rounds, rounds),
                    ..run
                },
            ),
        },
        (ReverseRecoveryPhase::MineFunding, ReplyView::Done) => Ok(
            ReverseRecoveryRunView { phase: ReverseRecoveryPhase::AwaitFinal, ..run },
        ),
        (ReverseRecoveryPhase::AwaitFinal, ReplyView::Direct { id, content, rounds, .. }) => Ok(
            ReverseRecoveryRunView {
                phase: ReverseRecoveryPhase::LoadSecret,
                direct_rounds: more_rounds(run.direct_rounds, rounds),
                ..run
            },
        ),
        (ReverseRecoveryPhase::LoadSecret, ReplyView::Texts(texts)) => {
            if texts.len() != 1 {
                Err(wrong_reply())
            } else {
                Ok(
                    ReverseRecoveryRunView {
                        phase: ReverseRecoveryPhase::ReadInvoice,
                        payment_hash: texts[0],
                        ..run
                    },
                )
            }
        },
        (ReverseRecoveryPhase::ReadInvoice, ReplyView::Texts(texts)) => {
            if texts.len() != 1 {
                Err(wrong_reply())
            } else {
                Ok(
                    ReverseRecoveryRunView {
                        phase: ReverseRecoveryPhase::AwaitAttempt,
                        invoice: texts[0],
                        ..run
                    },
                )
            }
        },
        (ReverseRecoveryPhase::ReadInvoice, ReplyView::Done) => Err(
            "doomsday reverse restored another funding action"@,
        ),
        (ReverseRecoveryPhase::AwaitAttempt, ReplyView::Texts(texts)) => {
            if texts.len() != 1 {
                Err(wrong_reply())
            } else if texts[0] != "pending"@ {
                Err("doomsday reverse payment was not held before claim"@)
            } else {
                Ok(ReverseRecoveryRunView { phase: ReverseRecoveryPhase::ReadHeight, ..run })
            }
        },
        (ReverseRecoveryPhase::ReadHeight, ReplyView::Number(value)) => match height_reading(
            value,
            "Bitcoin chain height exceeds u32"@,
        ) {
            Err(message) => Err(message),
            Ok(height) => match terms_reading(run.contract, "destination"@) {
                Err(message) => Err(message),
                Ok(terms) => match after_fee(terms.amount_sat, terms.miner_fee_budget_sat) {
                    None => Err("doomsday reverse fee consumes the output"@),
                    Some(left) => Ok(
                        ReverseRecoveryRunView {
                            phase: ReverseRecoveryPhase::BuildClaim,
                            claim_value_sat: left,
                            height: height,
                            ..run
                        },
                    ),
                },
            },
        },
        (ReverseRecoveryPhase::BuildClaim, ReplyView::Texts(texts)) => {
            if texts.len() != 2 {
                Err(wrong_reply())
            } else {
                Ok(
                    ReverseRecoveryRunView {
                        phase: ReverseRecoveryPhase::SayClaimPending,
                        claim_hex: texts[0],
                        claim_id: texts[1],
                        ..run
                    },
                )
            }
        },
        (ReverseRecoveryPhase::SayClaimPending, ReplyView::Record { .. }) => Ok(
            ReverseRecoveryRunView { phase: ReverseRecoveryPhase::ExchangeClaimPending, ..run },
        ),
        (ReverseRecoveryPhase::ExchangeClaimPending, ReplyView::Done) => Ok(
            ReverseRecoveryRunView {
                phase: ReverseRecoveryPhase::ObserveHeldPayment,
                direct_rounds: more_rounds(run.direct_rounds, 1),
                ..run
            },
        ),
        (ReverseRecoveryPhase::ObserveHeldPayment, ReplyView::Done) => Ok(
            ReverseRecoveryRunView { phase: ReverseRecoveryPhase::PlanClaim, ..run },
        ),
        (ReverseRecoveryPhase::PlanClaim, ReplyView::Planned(planned)) => match planned {
            Err(message) => Err("doomsday reverse planner rejected local rails: "@ + message),
            Ok(PlanView::RequestWalletClaim(effect_id)) => Ok(
                ReverseRecoveryRunView { phase: ReverseRecoveryPhase::SignClaim, effect_id, ..run },
            ),
            Ok(_) => Err("doomsday reverse planner did not authorize the claim"@),
        },
        (ReverseRecoveryPhase::SignClaim, ReplyView::Texts(texts)) => {
            if texts.len() != 2 {
                Err(wrong_reply())
            } else if texts[0] != run.effect_id || texts[1] != run.claim_hex {
                Err("doomsday reverse signed another claim"@)
            } else {
                Ok(ReverseRecoveryRunView { phase: ReverseRecoveryPhase::RecordClaim, ..run })
            }
        },
        (ReverseRecoveryPhase::SignClaim, ReplyView::Done) => Err(
            "doomsday reverse claim reused another effect"@,
        ),
        (ReverseRecoveryPhase::RecordClaim, ReplyView::Done) => Ok(
            ReverseRecoveryRunView { phase: ReverseRecoveryPhase::BroadcastClaim, ..run },
        ),
        (ReverseRecoveryPhase::BroadcastClaim, ReplyView::Done) => Ok(
            ReverseRecoveryRunView { phase: ReverseRecoveryPhase::SayClaimed, ..run },
        ),
        (ReverseRecoveryPhase::SayClaimed, ReplyView::Record { .. }) => Ok(
            ReverseRecoveryRunView { phase: ReverseRecoveryPhase::ExchangeClaimed, ..run },
        ),
        (ReverseRecoveryPhase::ExchangeClaimed, ReplyView::Done) => Ok(
            ReverseRecoveryRunView {
                phase: ReverseRecoveryPhase::MineClaim,
                direct_rounds: more_rounds(run.direct_rounds, 1),
                ..run
            },
        ),
        (ReverseRecoveryPhase::MineClaim, ReplyView::Done) => Ok(
            ReverseRecoveryRunView { phase: ReverseRecoveryPhase::AwaitSettlement, ..run },
        ),
        (ReverseRecoveryPhase::AwaitSettlement, ReplyView::Direct { id, content, rounds, .. }) => Ok(
            ReverseRecoveryRunView {
                phase: ReverseRecoveryPhase::AwaitPaid,
                direct_rounds: more_rounds(run.direct_rounds, rounds),
                ..run
            },
        ),
        (ReverseRecoveryPhase::AwaitPaid, ReplyView::Direct { id, content, rounds, .. }) => Ok(
            ReverseRecoveryRunView {
                phase: ReverseRecoveryPhase::AwaitCompleted,
                direct_rounds: more_rounds(run.direct_rounds, rounds),
                ..run
            },
        ),
        (ReverseRecoveryPhase::AwaitCompleted, ReplyView::Direct { id, content, rounds, .. }) => Ok(
            ReverseRecoveryRunView {
                phase: ReverseRecoveryPhase::AwaitPaymentEnd,
                direct_rounds: more_rounds(run.direct_rounds, rounds),
                ..run
            },
        ),
        (ReverseRecoveryPhase::AwaitPaymentEnd, ReplyView::Texts(texts)) => {
            if texts.len() != 1 {
                Err(wrong_reply())
            } else if texts[0] != "complete"@ {
                Err("doomsday reverse Lightning payment did not complete"@)
            } else {
                Ok(ReverseRecoveryRunView { phase: ReverseRecoveryPhase::ReadUnspent, ..run })
            }
        },
        (ReverseRecoveryPhase::ReadUnspent, ReplyView::Truth(value)) => {
            if value != false {
                Err("doomsday reverse funding outpoint remains unspent"@)
            } else {
                Ok(ReverseRecoveryRunView { phase: ReverseRecoveryPhase::AwaitClose, ..run })
            }
        },
        (ReverseRecoveryPhase::AwaitClose, ReplyView::Number(value)) => Ok(
            ReverseRecoveryRunView {
                phase: ReverseRecoveryPhase::IngestClose,
                direct_rounds: more_rounds(run.direct_rounds, rounds_of(value)),
                ..run
            },
        ),
        (ReverseRecoveryPhase::IngestClose, ReplyView::Record { id, pubkey, tags, content, .. }) => Ok(
            ReverseRecoveryRunView {
                phase: ReverseRecoveryPhase::RemoveSecret,
                close_id: id,
                ..run
            },
        ),
        (ReverseRecoveryPhase::RemoveSecret, ReplyView::Done) => Ok(
            ReverseRecoveryRunView { phase: ReverseRecoveryPhase::Finished, ..run },
        ),
        _ => Err(wrong_reply()),
    }
}

impl ReverseRecoveryRun {
    /// The recovery of a reverse case before its first action.
    pub fn new(
        case: DoomsdayCase,
        confirmations: u64,
        contract: &Json,
        provider_pubkey: &str,
        order_id: &str,
        controller_audit: &Json,
    ) -> (run: ReverseRecoveryRun)
        ensures
            run@.phase == ReverseRecoveryPhase::ExchangeFirst,
            run@.case == case,
            run@.confirmations == confirmations,
            run@.contract == contract@,
            run@.provider_pubkey == provider_pubkey@,
            run@.order_id == order_id@,
            run@.controller_audit == controller_audit@,
            run@.direct_rounds == 0,
            run@.funding_id == Seq::<char>::empty(),
            run@.funding_output == 0,
            run@.payment_hash == Seq::<char>::empty(),
            run@.invoice == Seq::<char>::empty(),
            run@.height == 0,
            run@.claim_value_sat == 0,
            run@.claim_hex == Seq::<char>::empty(),
            run@.claim_id == Seq::<char>::empty(),
            run@.effect_id == Seq::<char>::empty(),
            run@.close_id == Seq::<char>::empty(),
    {
        ReverseRecoveryRun {
            phase: ReverseRecoveryPhase::ExchangeFirst,
            case,
            confirmations,
            contract: contract.copy(),
            provider_pubkey: provider_pubkey.to_owned(),
            order_id: order_id.to_owned(),
            controller_audit: controller_audit.copy(),
            direct_rounds: 0,
            funding_id: String::new(),
            funding_output: 0,
            payment_hash: String::new(),
            invoice: String::new(),
            height: 0,
            claim_value_sat: 0,
            claim_hex: String::new(),
            claim_id: String::new(),
            effect_id: String::new(),
            close_id: String::new(),
        }
    }

    /// What the journey asks for next.
    pub fn action(&self) -> (action: Action)
        ensures
            action@ == reverse_recovery_action(self@),
    {
        match self.phase {
            ReverseRecoveryPhase::ExchangeFirst => perform(Task::ExchangeDirect),
            ReverseRecoveryPhase::AwaitHeld => Action::AwaitDirectState("lightning_htlcs_held"),
            ReverseRecoveryPhase::AwaitLockTerms => Action::AwaitDirectState(
                "provider_lock_terms_ready",
            ),
            ReverseRecoveryPhase::SayLockVerified => Action::SayDirect(
                "requester_lock_verified",
                JsonObject::new(),
            ),
            ReverseRecoveryPhase::ExchangeLock => perform(Task::ExchangeDirect),
            ReverseRecoveryPhase::AwaitFunding => Action::AwaitDirectState(
                "provider_funding_broadcast",
            ),
            ReverseRecoveryPhase::MineFunding => Action::Mine(
                "bitcoin".to_owned(),
                1,
                "doomsday-reverse-funding",
            ),
            ReverseRecoveryPhase::AwaitFinal => Action::AwaitDirectState("funding_final"),
            ReverseRecoveryPhase::LoadSecret => perform_with(
                Task::LoadSecret,
                self.case.journey_name(),
            ),
            ReverseRecoveryPhase::ReadInvoice => perform(Task::ReadFundingInvoice),
            ReverseRecoveryPhase::AwaitAttempt => perform_with_two(
                Task::AwaitPaymentAttempt,
                self.invoice.as_str(),
                self.payment_hash.as_str(),
            ),
            ReverseRecoveryPhase::ReadHeight => perform_with(
                Task::ReadHeight,
                "doomsday-reverse-height",
            ),
            ReverseRecoveryPhase::BuildClaim => perform_with_three(
                Task::BuildClaim,
                self.funding_id.as_str(),
                decimal_text(self.funding_output as u64).as_str(),
                decimal_text(self.claim_value_sat).as_str(),
            ),
            ReverseRecoveryPhase::SayClaimPending => Action::SayDirect(
                "requester_claim_pending",
                JsonObject::new(),
            ),
            ReverseRecoveryPhase::ExchangeClaimPending => perform(Task::ExchangeDirect),
            ReverseRecoveryPhase::ObserveHeldPayment => perform_with(
                Task::ObserveHeldPayment,
                self.payment_hash.as_str(),
            ),
            ReverseRecoveryPhase::PlanClaim => Action::Plan(show_reverse(self.height, false, true)),
            ReverseRecoveryPhase::SignClaim => perform_with(
                Task::SignExit,
                self.claim_hex.as_str(),
            ),
            ReverseRecoveryPhase::RecordClaim => perform_with_two(
                Task::RecordSignedExit,
                self.claim_id.as_str(),
                self.claim_hex.as_str(),
            ),
            ReverseRecoveryPhase::BroadcastClaim => perform_with_three(
                Task::BroadcastBitcoin,
                "doomsday-reverse-claim",
                self.claim_hex.as_str(),
                self.claim_id.as_str(),
            ),
            ReverseRecoveryPhase::SayClaimed => Action::SayDirect(
                "requester_claimed",
                JsonObject::new().with_text("transaction_id", self.claim_id.as_str()),
            ),
            ReverseRecoveryPhase::ExchangeClaimed => perform(Task::ExchangeDirect),
            ReverseRecoveryPhase::MineClaim => Action::Mine(
                "bitcoin".to_owned(),
                self.confirmations,
                "doomsday-reverse-claim",
            ),
            ReverseRecoveryPhase::AwaitSettlement => Action::AwaitDirectState(
                "lightning_settlement_pending",
            ),
            ReverseRecoveryPhase::AwaitPaid => Action::AwaitDirectState("lightning_paid"),
            ReverseRecoveryPhase::AwaitCompleted => Action::AwaitDirectState("completed"),
            ReverseRecoveryPhase::AwaitPaymentEnd => perform_with_two(
                Task::AwaitPaymentEnd,
                self.invoice.as_str(),
                self.payment_hash.as_str(),
            ),
            ReverseRecoveryPhase::ReadUnspent => perform_with_three(
                Task::ReadUnspent,
                "doomsday-reverse-outpoint",
                self.funding_id.as_str(),
                decimal_text(self.funding_output as u64).as_str(),
            ),
            ReverseRecoveryPhase::AwaitClose => perform(Task::AwaitDirectClose),
            ReverseRecoveryPhase::IngestClose => Action::AwaitClose(
                CloseCheck {
                    outcome: "completed",
                    bitcoin: Some(self.claim_id.clone()),
                    liquid: None,
                    lightning: Some(
                        LightningTerminalCheck::OutgoingPayment {
                            invoice: self.invoice.clone(),
                            payment_hash: self.payment_hash.clone(),
                            expected_status: "complete".to_owned(),
                        },
                    ),
                },
            ),
            ReverseRecoveryPhase::RemoveSecret => perform_with(
                Task::RemoveSecret,
                self.case.journey_name(),
            ),
            ReverseRecoveryPhase::Finished => Action::Finish,
        }
    }

    /// Takes a reply: the journey goes on to its next phase, or ends with a message.
    #[verifier::rlimit(90)]
    pub fn advance(&mut self, reply: Reply) -> (moved: Result<(), String>)
        ensures
            match moved {
                Ok(_) => reverse_recovery_step(
                    old(self)@,
                    reply@,
                ) == Ok::<ReverseRecoveryRunView, Seq<char>>(final(self)@),
                Err(message) => {
                    &&& reverse_recovery_step(
                        old(self)@,
                        reply@,
                    ) == Err::<ReverseRecoveryRunView, Seq<char>>(message@)
                    &&& final(self)@ == old(self)@
                },
            },
    {
        match (self.phase, reply) {
            (ReverseRecoveryPhase::ExchangeFirst, Reply::Done) => {
                self.direct_rounds = count_rounds(self.direct_rounds, 1);
                self.phase = ReverseRecoveryPhase::AwaitHeld;
                Ok(())
            },
            (ReverseRecoveryPhase::AwaitHeld, Reply::Direct(event, rounds)) => {
                self.direct_rounds = count_rounds(self.direct_rounds, rounds);
                self.phase = ReverseRecoveryPhase::AwaitLockTerms;
                Ok(())
            },
            (ReverseRecoveryPhase::AwaitLockTerms, Reply::Direct(event, rounds)) => {
                self.direct_rounds = count_rounds(self.direct_rounds, rounds);
                self.phase = ReverseRecoveryPhase::SayLockVerified;
                Ok(())
            },
            (ReverseRecoveryPhase::SayLockVerified, Reply::Record(_)) => {
                self.phase = ReverseRecoveryPhase::ExchangeLock;
                Ok(())
            },
            (ReverseRecoveryPhase::ExchangeLock, Reply::Done) => {
                self.direct_rounds = count_rounds(self.direct_rounds, 1);
                self.phase = ReverseRecoveryPhase::AwaitFunding;
                Ok(())
            },
            (ReverseRecoveryPhase::AwaitFunding, Reply::Direct(event, rounds)) => {
                let found: (String, u32) = status_outpoint(&event)?;
                self.funding_id = found.0;
                self.funding_output = found.1;
                self.direct_rounds = count_rounds(self.direct_rounds, rounds);
                self.phase = ReverseRecoveryPhase::MineFunding;
                Ok(())
            },
            (ReverseRecoveryPhase::MineFunding, Reply::Done) => {
                self.phase = ReverseRecoveryPhase::AwaitFinal;
                Ok(())
            },
            (ReverseRecoveryPhase::AwaitFinal, Reply::Direct(event, rounds)) => {
                self.direct_rounds = count_rounds(self.direct_rounds, rounds);
                self.phase = ReverseRecoveryPhase::LoadSecret;
                Ok(())
            },
            (ReverseRecoveryPhase::LoadSecret, Reply::Texts(texts)) => {
                if texts.len() != 1 {
                    return Err(wrong_reply_text());
                }
                self.payment_hash = texts[0].clone();
                self.phase = ReverseRecoveryPhase::ReadInvoice;
                Ok(())
            },
            (ReverseRecoveryPhase::ReadInvoice, Reply::Texts(texts)) => {
                if texts.len() != 1 {
                    return Err(wrong_reply_text());
                }
                self.invoice = texts[0].clone();
                self.phase = ReverseRecoveryPhase::AwaitAttempt;
                Ok(())
            },
            (ReverseRecoveryPhase::ReadInvoice, Reply::Done) => {
                Err("doomsday reverse restored another funding action".to_owned())
            },
            (ReverseRecoveryPhase::AwaitAttempt, Reply::Texts(texts)) => {
                if texts.len() != 1 {
                    return Err(wrong_reply_text());
                }
                if !same_text(texts[0].as_str(), "pending") {
                    return Err("doomsday reverse payment was not held before claim".to_owned());
                }
                self.phase = ReverseRecoveryPhase::ReadHeight;
                Ok(())
            },
            (ReverseRecoveryPhase::ReadHeight, Reply::Number(value)) => {
                let height: u32 = narrow_height(value, "Bitcoin chain height exceeds u32")?;
                let terms: BitcoinTerms = bitcoin_terms(&self.contract, "destination")?;
                let left: u64 = match amount_after_fee(
                    terms.amount_sat,
                    terms.miner_fee_budget_sat,
                ) {
                    Some(left) => left,
                    None => {
                        return Err("doomsday reverse fee consumes the output".to_owned());
                    },
                };
                self.claim_value_sat = left;
                self.height = height;
                self.phase = ReverseRecoveryPhase::BuildClaim;
                Ok(())
            },
            (ReverseRecoveryPhase::BuildClaim, Reply::Texts(texts)) => {
                if texts.len() != 2 {
                    return Err(wrong_reply_text());
                }
                self.claim_hex = texts[0].clone();
                self.claim_id = texts[1].clone();
                self.phase = ReverseRecoveryPhase::SayClaimPending;
                Ok(())
            },
            (ReverseRecoveryPhase::SayClaimPending, Reply::Record(_)) => {
                self.phase = ReverseRecoveryPhase::ExchangeClaimPending;
                Ok(())
            },
            (ReverseRecoveryPhase::ExchangeClaimPending, Reply::Done) => {
                self.direct_rounds = count_rounds(self.direct_rounds, 1);
                self.phase = ReverseRecoveryPhase::ObserveHeldPayment;
                Ok(())
            },
            (ReverseRecoveryPhase::ObserveHeldPayment, Reply::Done) => {
                self.phase = ReverseRecoveryPhase::PlanClaim;
                Ok(())
            },
            (ReverseRecoveryPhase::PlanClaim, Reply::Planned(planned)) => match planned {
                Err(message) => Err(
                    join("doomsday reverse planner rejected local rails: ", message.as_str()),
                ),
                Ok(Plan::RequestWalletClaim(effect_id)) => {
                    self.effect_id = effect_id;
                    self.phase = ReverseRecoveryPhase::SignClaim;
                    Ok(())
                },
                Ok(_) => Err("doomsday reverse planner did not authorize the claim".to_owned()),
            },
            (ReverseRecoveryPhase::SignClaim, Reply::Texts(texts)) => {
                if texts.len() != 2 {
                    return Err(wrong_reply_text());
                }
                if !same_text(texts[0].as_str(), self.effect_id.as_str())
                    || !same_text(texts[1].as_str(), self.claim_hex.as_str())
                {
                    return Err("doomsday reverse signed another claim".to_owned());
                }
                self.phase = ReverseRecoveryPhase::RecordClaim;
                Ok(())
            },
            (ReverseRecoveryPhase::SignClaim, Reply::Done) => {
                Err("doomsday reverse claim reused another effect".to_owned())
            },
            (ReverseRecoveryPhase::RecordClaim, Reply::Done) => {
                self.phase = ReverseRecoveryPhase::BroadcastClaim;
                Ok(())
            },
            (ReverseRecoveryPhase::BroadcastClaim, Reply::Done) => {
                self.phase = ReverseRecoveryPhase::SayClaimed;
                Ok(())
            },
            (ReverseRecoveryPhase::SayClaimed, Reply::Record(_)) => {
                self.phase = ReverseRecoveryPhase::ExchangeClaimed;
                Ok(())
            },
            (ReverseRecoveryPhase::ExchangeClaimed, Reply::Done) => {
                self.direct_rounds = count_rounds(self.direct_rounds, 1);
                self.phase = ReverseRecoveryPhase::MineClaim;
                Ok(())
            },
            (ReverseRecoveryPhase::MineClaim, Reply::Done) => {
                self.phase = ReverseRecoveryPhase::AwaitSettlement;
                Ok(())
            },
            (ReverseRecoveryPhase::AwaitSettlement, Reply::Direct(event, rounds)) => {
                self.direct_rounds = count_rounds(self.direct_rounds, rounds);
                self.phase = ReverseRecoveryPhase::AwaitPaid;
                Ok(())
            },
            (ReverseRecoveryPhase::AwaitPaid, Reply::Direct(event, rounds)) => {
                self.direct_rounds = count_rounds(self.direct_rounds, rounds);
                self.phase = ReverseRecoveryPhase::AwaitCompleted;
                Ok(())
            },
            (ReverseRecoveryPhase::AwaitCompleted, Reply::Direct(event, rounds)) => {
                self.direct_rounds = count_rounds(self.direct_rounds, rounds);
                self.phase = ReverseRecoveryPhase::AwaitPaymentEnd;
                Ok(())
            },
            (ReverseRecoveryPhase::AwaitPaymentEnd, Reply::Texts(texts)) => {
                if texts.len() != 1 {
                    return Err(wrong_reply_text());
                }
                if !same_text(texts[0].as_str(), "complete") {
                    return Err("doomsday reverse Lightning payment did not complete".to_owned());
                }
                self.phase = ReverseRecoveryPhase::ReadUnspent;
                Ok(())
            },
            (ReverseRecoveryPhase::ReadUnspent, Reply::Truth(value)) => {
                if value != false {
                    return Err("doomsday reverse funding outpoint remains unspent".to_owned());
                }
                self.phase = ReverseRecoveryPhase::AwaitClose;
                Ok(())
            },
            (ReverseRecoveryPhase::AwaitClose, Reply::Number(value)) => {
                self.direct_rounds = count_rounds(self.direct_rounds, rounds_in(value));
                self.phase = ReverseRecoveryPhase::IngestClose;
                Ok(())
            },
            (ReverseRecoveryPhase::IngestClose, Reply::Record(event)) => {
                self.close_id = event.id;
                self.phase = ReverseRecoveryPhase::RemoveSecret;
                Ok(())
            },
            (ReverseRecoveryPhase::RemoveSecret, Reply::Done) => {
                self.phase = ReverseRecoveryPhase::Finished;
                Ok(())
            },
            _ => Err(wrong_reply_text()),
        }
    }
}

/// Whether each entry of a trace leads to the one after it, from the first phase on.
pub open spec fn is_reverse_recovery_trace(
    trace: Seq<(ReverseRecoveryRunView, ReplyView)>,
) -> bool {
    &&& trace.len() > 0
    &&& trace[0].0.phase == ReverseRecoveryPhase::ExchangeFirst
    &&& forall|i: int|
        0 <= i < trace.len() - 1 ==> reverse_recovery_step(
            (#[trigger] trace[i]).0,
            trace[i].1,
        ) == Ok::<
            ReverseRecoveryRunView,
            Seq<char>,
        >(trace[i + 1].0)
}

/// Each reply takes the recovery of a reverse case forward, never back and never in place.
#[verifier::rlimit(90)]
pub proof fn law_reverse_recovery_moves_forward(run: ReverseRecoveryRunView, reply: ReplyView)
    requires
        reverse_recovery_step(run, reply) is Ok,
    ensures
        run.phase.rank() < reverse_recovery_step(run, reply)->Ok_0.phase.rank(),
{
}

/// Which replies take the recovery of a reverse case on, and to which phase: in each phase exactly
/// the replies that pass every check of that phase, and no others.
pub proof fn law_reverse_recovery_goes_on_only_when_answered(
    run: ReverseRecoveryRunView,
    reply: ReplyView,
)
    ensures
        ({
            let next = reverse_recovery_step(run, reply);
            match run.phase {
                ReverseRecoveryPhase::ExchangeFirst => {
                    &&& next is Ok <==> reply is Done
                    &&& next is Ok ==> next->Ok_0.phase == ReverseRecoveryPhase::AwaitHeld
                },
                ReverseRecoveryPhase::AwaitHeld => {
                    &&& next is Ok <==> reply is Direct
                    &&& next is Ok ==> next->Ok_0.phase == ReverseRecoveryPhase::AwaitLockTerms
                },
                ReverseRecoveryPhase::AwaitLockTerms => {
                    &&& next is Ok <==> reply is Direct
                    &&& next is Ok ==> next->Ok_0.phase == ReverseRecoveryPhase::SayLockVerified
                },
                ReverseRecoveryPhase::SayLockVerified => {
                    &&& next is Ok <==> reply is Record
                    &&& next is Ok ==> next->Ok_0.phase == ReverseRecoveryPhase::ExchangeLock
                },
                ReverseRecoveryPhase::ExchangeLock => {
                    &&& next is Ok <==> reply is Done
                    &&& next is Ok ==> next->Ok_0.phase == ReverseRecoveryPhase::AwaitFunding
                },
                ReverseRecoveryPhase::AwaitFunding => {
                    &&& next is Ok <==> {
                        &&& reply is Direct
                        &&& outpoint_reading(reply->Direct_content) is Ok
                    }
                    &&& next is Ok ==> next->Ok_0.phase == ReverseRecoveryPhase::MineFunding
                },
                ReverseRecoveryPhase::MineFunding => {
                    &&& next is Ok <==> reply is Done
                    &&& next is Ok ==> next->Ok_0.phase == ReverseRecoveryPhase::AwaitFinal
                },
                ReverseRecoveryPhase::AwaitFinal => {
                    &&& next is Ok <==> reply is Direct
                    &&& next is Ok ==> next->Ok_0.phase == ReverseRecoveryPhase::LoadSecret
                },
                ReverseRecoveryPhase::LoadSecret => {
                    &&& next is Ok <==> {
                        &&& reply is Texts
                        &&& reply->Texts_0.len() == 1
                    }
                    &&& next is Ok ==> next->Ok_0.phase == ReverseRecoveryPhase::ReadInvoice
                },
                ReverseRecoveryPhase::ReadInvoice => {
                    &&& next is Ok <==> {
                        &&& reply is Texts
                        &&& reply->Texts_0.len() == 1
                    }
                    &&& next is Ok ==> next->Ok_0.phase == ReverseRecoveryPhase::AwaitAttempt
                },
                ReverseRecoveryPhase::AwaitAttempt => {
                    &&& next is Ok <==> {
                        &&& reply is Texts
                        &&& reply->Texts_0.len() == 1
                        &&& reply->Texts_0[0] == "pending"@
                    }
                    &&& next is Ok ==> next->Ok_0.phase == ReverseRecoveryPhase::ReadHeight
                },
                ReverseRecoveryPhase::ReadHeight => {
                    &&& next is Ok <==> {
                        &&& reply is Number
                        &&& height_reading(
                            reply->Number_0,
                            "Bitcoin chain height exceeds u32"@,
                        ) is Ok
                        &&& terms_reading(run.contract, "destination"@) is Ok
                        &&& after_fee(
                            terms_reading(run.contract, "destination"@)->Ok_0.amount_sat,
                            terms_reading(run.contract, "destination"@)->Ok_0.miner_fee_budget_sat,
                        ) is Some
                    }
                    &&& next is Ok ==> next->Ok_0.phase == ReverseRecoveryPhase::BuildClaim
                },
                ReverseRecoveryPhase::BuildClaim => {
                    &&& next is Ok <==> {
                        &&& reply is Texts
                        &&& reply->Texts_0.len() == 2
                    }
                    &&& next is Ok ==> next->Ok_0.phase == ReverseRecoveryPhase::SayClaimPending
                },
                ReverseRecoveryPhase::SayClaimPending => {
                    &&& next is Ok <==> reply is Record
                    &&& next is Ok ==> next->Ok_0.phase == ReverseRecoveryPhase::ExchangeClaimPending
                },
                ReverseRecoveryPhase::ExchangeClaimPending => {
                    &&& next is Ok <==> reply is Done
                    &&& next is Ok ==> next->Ok_0.phase == ReverseRecoveryPhase::ObserveHeldPayment
                },
                ReverseRecoveryPhase::ObserveHeldPayment => {
                    &&& next is Ok <==> reply is Done
                    &&& next is Ok ==> next->Ok_0.phase == ReverseRecoveryPhase::PlanClaim
                },
                ReverseRecoveryPhase::PlanClaim => {
                    &&& next is Ok <==> {
                        &&& reply is Planned
                        &&& reply->Planned_0 is Ok
                        &&& reply->Planned_0->Ok_0 is RequestWalletClaim
                    }
                    &&& next is Ok ==> next->Ok_0.phase == ReverseRecoveryPhase::SignClaim
                },
                ReverseRecoveryPhase::SignClaim => {
                    &&& next is Ok <==> {
                        &&& reply is Texts
                        &&& reply->Texts_0.len() == 2
                        &&& reply->Texts_0[0] == run.effect_id
                        &&& reply->Texts_0[1] == run.claim_hex
                    }
                    &&& next is Ok ==> next->Ok_0.phase == ReverseRecoveryPhase::RecordClaim
                },
                ReverseRecoveryPhase::RecordClaim => {
                    &&& next is Ok <==> reply is Done
                    &&& next is Ok ==> next->Ok_0.phase == ReverseRecoveryPhase::BroadcastClaim
                },
                ReverseRecoveryPhase::BroadcastClaim => {
                    &&& next is Ok <==> reply is Done
                    &&& next is Ok ==> next->Ok_0.phase == ReverseRecoveryPhase::SayClaimed
                },
                ReverseRecoveryPhase::SayClaimed => {
                    &&& next is Ok <==> reply is Record
                    &&& next is Ok ==> next->Ok_0.phase == ReverseRecoveryPhase::ExchangeClaimed
                },
                ReverseRecoveryPhase::ExchangeClaimed => {
                    &&& next is Ok <==> reply is Done
                    &&& next is Ok ==> next->Ok_0.phase == ReverseRecoveryPhase::MineClaim
                },
                ReverseRecoveryPhase::MineClaim => {
                    &&& next is Ok <==> reply is Done
                    &&& next is Ok ==> next->Ok_0.phase == ReverseRecoveryPhase::AwaitSettlement
                },
                ReverseRecoveryPhase::AwaitSettlement => {
                    &&& next is Ok <==> reply is Direct
                    &&& next is Ok ==> next->Ok_0.phase == ReverseRecoveryPhase::AwaitPaid
                },
                ReverseRecoveryPhase::AwaitPaid => {
                    &&& next is Ok <==> reply is Direct
                    &&& next is Ok ==> next->Ok_0.phase == ReverseRecoveryPhase::AwaitCompleted
                },
                ReverseRecoveryPhase::AwaitCompleted => {
                    &&& next is Ok <==> reply is Direct
                    &&& next is Ok ==> next->Ok_0.phase == ReverseRecoveryPhase::AwaitPaymentEnd
                },
                ReverseRecoveryPhase::AwaitPaymentEnd => {
                    &&& next is Ok <==> {
                        &&& reply is Texts
                        &&& reply->Texts_0.len() == 1
                        &&& reply->Texts_0[0] == "complete"@
                    }
                    &&& next is Ok ==> next->Ok_0.phase == ReverseRecoveryPhase::ReadUnspent
                },
                ReverseRecoveryPhase::ReadUnspent => {
                    &&& next is Ok <==> {
                        &&& reply is Truth
                        &&& reply->Truth_0 == false
                    }
                    &&& next is Ok ==> next->Ok_0.phase == ReverseRecoveryPhase::AwaitClose
                },
                ReverseRecoveryPhase::AwaitClose => {
                    &&& next is Ok <==> reply is Number
                    &&& next is Ok ==> next->Ok_0.phase == ReverseRecoveryPhase::IngestClose
                },
                ReverseRecoveryPhase::IngestClose => {
                    &&& next is Ok <==> reply is Record
                    &&& next is Ok ==> next->Ok_0.phase == ReverseRecoveryPhase::RemoveSecret
                },
                ReverseRecoveryPhase::RemoveSecret => {
                    &&& next is Ok <==> reply is Done
                    &&& next is Ok ==> next->Ok_0.phase == ReverseRecoveryPhase::Finished
                },
                ReverseRecoveryPhase::Finished => next is Err,
            }
        }),
{
}

/// The reply that a trace of the recovery of a reverse case holds for a phase.
pub open spec fn reverse_recovery_told(
    trace: Seq<(ReverseRecoveryRunView, ReplyView)>,
    phase: ReverseRecoveryPhase,
) -> ReplyView {
    trace[choose|i: int| 0 <= i < trace.len() && (#[trigger] trace[i]).0.phase == phase].1
}

/// The values that a run of the recovery of a reverse case holds, by the replies that gave them:
/// each stays as the reply to one phase gave it, or as the run started with it.
pub open spec fn reverse_recovery_holds(
    trace: Seq<(ReverseRecoveryRunView, ReplyView)>,
    run: ReverseRecoveryRunView,
) -> bool {
    let start = trace[0].0;
    let funding_id = outpoint_reading(
        reverse_recovery_told(trace, ReverseRecoveryPhase::AwaitFunding)->Direct_content,
    )->Ok_0.0;
    let funding_output = outpoint_reading(
        reverse_recovery_told(trace, ReverseRecoveryPhase::AwaitFunding)->Direct_content,
    )->Ok_0.1;
    let payment_hash = reverse_recovery_told(trace, ReverseRecoveryPhase::LoadSecret)->Texts_0[0];
    let invoice = reverse_recovery_told(trace, ReverseRecoveryPhase::ReadInvoice)->Texts_0[0];
    let height = height_reading(
        reverse_recovery_told(trace, ReverseRecoveryPhase::ReadHeight)->Number_0,
        "Bitcoin chain height exceeds u32"@,
    )->Ok_0;
    let claim_value_sat = after_fee(
        terms_reading(start.contract, "destination"@)->Ok_0.amount_sat,
        terms_reading(start.contract, "destination"@)->Ok_0.miner_fee_budget_sat,
    )->0;
    let claim_hex = reverse_recovery_told(trace, ReverseRecoveryPhase::BuildClaim)->Texts_0[0];
    let claim_id = reverse_recovery_told(trace, ReverseRecoveryPhase::BuildClaim)->Texts_0[1];
    let effect_id = reverse_recovery_told(
        trace,
        ReverseRecoveryPhase::PlanClaim,
    )->Planned_0->Ok_0->RequestWalletClaim_0;
    let close_id = reverse_recovery_told(trace, ReverseRecoveryPhase::IngestClose)->Record_id;
    &&& run.case == start.case
    &&& run.confirmations == start.confirmations
    &&& run.contract == start.contract
    &&& run.provider_pubkey == start.provider_pubkey
    &&& run.order_id == start.order_id
    &&& run.controller_audit == start.controller_audit
    &&& run.phase.rank() > ReverseRecoveryPhase::AwaitFunding.rank()
        ==> run.funding_id == funding_id
    &&& run.phase.rank() > ReverseRecoveryPhase::AwaitFunding.rank()
        ==> run.funding_output == funding_output
    &&& run.phase.rank() > ReverseRecoveryPhase::LoadSecret.rank()
        ==> run.payment_hash == payment_hash
    &&& run.phase.rank() > ReverseRecoveryPhase::ReadInvoice.rank() ==> run.invoice == invoice
    &&& run.phase.rank() > ReverseRecoveryPhase::ReadHeight.rank() ==> run.height == height
    &&& run.phase.rank() > ReverseRecoveryPhase::ReadHeight.rank()
        ==> run.claim_value_sat == claim_value_sat
    &&& run.phase.rank() > ReverseRecoveryPhase::BuildClaim.rank() ==> run.claim_hex == claim_hex
    &&& run.phase.rank() > ReverseRecoveryPhase::BuildClaim.rank() ==> run.claim_id == claim_id
    &&& run.phase.rank() > ReverseRecoveryPhase::PlanClaim.rank() ==> run.effect_id == effect_id
    &&& run.phase.rank() > ReverseRecoveryPhase::IngestClose.rank() ==> run.close_id == close_id
}

/// No phase of the recovery of a reverse case comes twice in a trace.
proof fn lemma_reverse_recovery_told_once(
    trace: Seq<(ReverseRecoveryRunView, ReplyView)>,
    place: int,
)
    requires
        is_reverse_recovery_trace(trace),
        0 <= place < trace.len(),
    ensures
        reverse_recovery_told(trace, trace[place].0.phase) == trace[place].1,
{
    let phase = trace[place].0.phase;
    let other = choose|i: int| 0 <= i < trace.len() && (#[trigger] trace[i]).0.phase == phase;
    assert(trace[place].0.phase == phase);
    if other != place {
        let (early, late) = if other < place {
            (other, place)
        } else {
            (place, other)
        };
        assert forall|run: ReverseRecoveryRunView, reply: ReplyView|
            (#[trigger] reverse_recovery_step(run, reply)) is Ok implies run.phase.rank() < reverse_recovery_step(
            run,
            reply,
        )->Ok_0.phase.rank() by {
            law_reverse_recovery_moves_forward(run, reply);
        }
        lemma_ranks_rise(
            trace,
            |run: ReverseRecoveryRunView, reply: ReplyView| reverse_recovery_step(run, reply),
            |run: ReverseRecoveryRunView| run.phase.rank(),
            early,
            late,
        );
    }
}

/// A reply keeps what the recovery of a reverse case holds, and adds what it tells.
proof fn lemma_reverse_recovery_holds_on(
    trace: Seq<(ReverseRecoveryRunView, ReplyView)>,
    run: ReverseRecoveryRunView,
    reply: ReplyView,
)
    requires
        reverse_recovery_holds(trace, run),
        reverse_recovery_told(trace, run.phase) == reply,
        reverse_recovery_step(run, reply) is Ok,
    ensures
        reverse_recovery_holds(trace, reverse_recovery_step(run, reply)->Ok_0),
{
    let next = reverse_recovery_step(run, reply)->Ok_0;
    match run.phase {
        ReverseRecoveryPhase::ExchangeFirst => assert(reverse_recovery_holds(trace, next)),
        ReverseRecoveryPhase::AwaitHeld => assert(reverse_recovery_holds(trace, next)),
        ReverseRecoveryPhase::AwaitLockTerms => assert(reverse_recovery_holds(trace, next)),
        ReverseRecoveryPhase::SayLockVerified => assert(reverse_recovery_holds(trace, next)),
        ReverseRecoveryPhase::ExchangeLock => assert(reverse_recovery_holds(trace, next)),
        ReverseRecoveryPhase::AwaitFunding => assert(reverse_recovery_holds(trace, next)),
        ReverseRecoveryPhase::MineFunding => assert(reverse_recovery_holds(trace, next)),
        ReverseRecoveryPhase::AwaitFinal => assert(reverse_recovery_holds(trace, next)),
        ReverseRecoveryPhase::LoadSecret => assert(reverse_recovery_holds(trace, next)),
        ReverseRecoveryPhase::ReadInvoice => assert(reverse_recovery_holds(trace, next)),
        ReverseRecoveryPhase::AwaitAttempt => assert(reverse_recovery_holds(trace, next)),
        ReverseRecoveryPhase::ReadHeight => assert(reverse_recovery_holds(trace, next)),
        ReverseRecoveryPhase::BuildClaim => assert(reverse_recovery_holds(trace, next)),
        ReverseRecoveryPhase::SayClaimPending => assert(reverse_recovery_holds(trace, next)),
        ReverseRecoveryPhase::ExchangeClaimPending => assert(reverse_recovery_holds(trace, next)),
        ReverseRecoveryPhase::ObserveHeldPayment => assert(reverse_recovery_holds(trace, next)),
        ReverseRecoveryPhase::PlanClaim => assert(reverse_recovery_holds(trace, next)),
        ReverseRecoveryPhase::SignClaim => assert(reverse_recovery_holds(trace, next)),
        ReverseRecoveryPhase::RecordClaim => assert(reverse_recovery_holds(trace, next)),
        ReverseRecoveryPhase::BroadcastClaim => assert(reverse_recovery_holds(trace, next)),
        ReverseRecoveryPhase::SayClaimed => assert(reverse_recovery_holds(trace, next)),
        ReverseRecoveryPhase::ExchangeClaimed => assert(reverse_recovery_holds(trace, next)),
        ReverseRecoveryPhase::MineClaim => assert(reverse_recovery_holds(trace, next)),
        ReverseRecoveryPhase::AwaitSettlement => assert(reverse_recovery_holds(trace, next)),
        ReverseRecoveryPhase::AwaitPaid => assert(reverse_recovery_holds(trace, next)),
        ReverseRecoveryPhase::AwaitCompleted => assert(reverse_recovery_holds(trace, next)),
        ReverseRecoveryPhase::AwaitPaymentEnd => assert(reverse_recovery_holds(trace, next)),
        ReverseRecoveryPhase::ReadUnspent => assert(reverse_recovery_holds(trace, next)),
        ReverseRecoveryPhase::AwaitClose => assert(reverse_recovery_holds(trace, next)),
        ReverseRecoveryPhase::IngestClose => assert(reverse_recovery_holds(trace, next)),
        ReverseRecoveryPhase::RemoveSecret => assert(reverse_recovery_holds(trace, next)),
        ReverseRecoveryPhase::Finished => assert(reverse_recovery_holds(trace, next)),
    }
}

/// What the recovery of a reverse case has been told, it keeps: at every place of a trace each
/// value that the run holds is the one that the reply to the phase that asks for it gave, or the
/// one that the run started with.
pub proof fn law_reverse_recovery_keeps_what_it_was_told(
    trace: Seq<(ReverseRecoveryRunView, ReplyView)>,
    last: int,
)
    requires
        is_reverse_recovery_trace(trace),
        0 <= last < trace.len(),
    ensures
        reverse_recovery_holds(trace, trace[last].0),
    decreases last,
{
    if last > 0 {
        let before = last - 1;
        law_reverse_recovery_keeps_what_it_was_told(trace, before);
        lemma_reverse_recovery_told_once(trace, before);
        assert(reverse_recovery_step(trace[before].0, trace[before].1) == Ok::<ReverseRecoveryRunView, Seq<char>>(
            trace[before + 1].0,
        ));
        lemma_reverse_recovery_holds_on(trace, trace[before].0, trace[before].1);
    }
}

/// What the recovery of a reverse case asks for in each phase, in terms of the replies before it:
/// the values in a request are those that the replies to the named phases gave, or those that the
/// run started with.
pub proof fn law_reverse_recovery_asks_with_what_it_was_told(
    trace: Seq<(ReverseRecoveryRunView, ReplyView)>,
    last: int,
)
    requires
        is_reverse_recovery_trace(trace),
        0 <= last < trace.len(),
    ensures
        ({
            let start = trace[0].0;
            let funding_id = outpoint_reading(
                reverse_recovery_told(trace, ReverseRecoveryPhase::AwaitFunding)->Direct_content,
            )->Ok_0.0;
            let funding_output = outpoint_reading(
                reverse_recovery_told(trace, ReverseRecoveryPhase::AwaitFunding)->Direct_content,
            )->Ok_0.1;
            let payment_hash = reverse_recovery_told(trace, ReverseRecoveryPhase::LoadSecret)->Texts_0[0];
            let invoice = reverse_recovery_told(trace, ReverseRecoveryPhase::ReadInvoice)->Texts_0[0];
            let height = height_reading(
                reverse_recovery_told(trace, ReverseRecoveryPhase::ReadHeight)->Number_0,
                "Bitcoin chain height exceeds u32"@,
            )->Ok_0;
            let claim_value_sat = after_fee(
                terms_reading(start.contract, "destination"@)->Ok_0.amount_sat,
                terms_reading(start.contract, "destination"@)->Ok_0.miner_fee_budget_sat,
            )->0;
            let claim_hex = reverse_recovery_told(trace, ReverseRecoveryPhase::BuildClaim)->Texts_0[0];
            let claim_id = reverse_recovery_told(trace, ReverseRecoveryPhase::BuildClaim)->Texts_0[1];
            let action = reverse_recovery_action(trace[last].0);
            match trace[last].0.phase {
                ReverseRecoveryPhase::ExchangeFirst => action == ActionView::Perform(
                    Task::ExchangeDirect,
                    seq![],
                ),
                ReverseRecoveryPhase::AwaitHeld => action == ActionView::AwaitDirectState(
                    "lightning_htlcs_held"@,
                ),
                ReverseRecoveryPhase::AwaitLockTerms => action == ActionView::AwaitDirectState(
                    "provider_lock_terms_ready"@,
                ),
                ReverseRecoveryPhase::SayLockVerified => action == ActionView::SayDirect(
                    "requester_lock_verified"@,
                    no_members(),
                ),
                ReverseRecoveryPhase::ExchangeLock => action == ActionView::Perform(
                    Task::ExchangeDirect,
                    seq![],
                ),
                ReverseRecoveryPhase::AwaitFunding => action == ActionView::AwaitDirectState(
                    "provider_funding_broadcast"@,
                ),
                ReverseRecoveryPhase::MineFunding => action == ActionView::Mine(
                    "bitcoin"@,
                    1,
                    "doomsday-reverse-funding"@,
                ),
                ReverseRecoveryPhase::AwaitFinal => action == ActionView::AwaitDirectState(
                    "funding_final"@,
                ),
                ReverseRecoveryPhase::LoadSecret => action == ActionView::Perform(
                    Task::LoadSecret,
                    seq![start.case.journey_label()],
                ),
                ReverseRecoveryPhase::ReadInvoice => action == ActionView::Perform(
                    Task::ReadFundingInvoice,
                    seq![],
                ),
                ReverseRecoveryPhase::AwaitAttempt => action == ActionView::Perform(
                    Task::AwaitPaymentAttempt,
                    seq![invoice, payment_hash],
                ),
                ReverseRecoveryPhase::ReadHeight => action == ActionView::Perform(
                    Task::ReadHeight,
                    seq!["doomsday-reverse-height"@],
                ),
                ReverseRecoveryPhase::BuildClaim => action == ActionView::Perform(
                    Task::BuildClaim,
                    seq![
                        funding_id,
                        decimal(funding_output as nat),
                        decimal(claim_value_sat as nat),
                    ],
                ),
                ReverseRecoveryPhase::SayClaimPending => action == ActionView::SayDirect(
                    "requester_claim_pending"@,
                    no_members(),
                ),
                ReverseRecoveryPhase::ExchangeClaimPending => action == ActionView::Perform(
                    Task::ExchangeDirect,
                    seq![],
                ),
                ReverseRecoveryPhase::ObserveHeldPayment => action == ActionView::Perform(
                    Task::ObserveHeldPayment,
                    seq![payment_hash],
                ),
                ReverseRecoveryPhase::PlanClaim => action == ActionView::Plan(
                    reverse_standing(height, false, true),
                ),
                ReverseRecoveryPhase::SignClaim => action == ActionView::Perform(
                    Task::SignExit,
                    seq![claim_hex],
                ),
                ReverseRecoveryPhase::RecordClaim => action == ActionView::Perform(
                    Task::RecordSignedExit,
                    seq![claim_id, claim_hex],
                ),
                ReverseRecoveryPhase::BroadcastClaim => action == ActionView::Perform(
                    Task::BroadcastBitcoin,
                    seq!["doomsday-reverse-claim"@, claim_hex, claim_id],
                ),
                ReverseRecoveryPhase::SayClaimed => action == ActionView::SayDirect(
                    "requester_claimed"@,
                    no_members().insert("transaction_id"@, text_doc(claim_id)),
                ),
                ReverseRecoveryPhase::ExchangeClaimed => action == ActionView::Perform(
                    Task::ExchangeDirect,
                    seq![],
                ),
                ReverseRecoveryPhase::MineClaim => action == ActionView::Mine(
                    "bitcoin"@,
                    start.confirmations,
                    "doomsday-reverse-claim"@,
                ),
                ReverseRecoveryPhase::AwaitSettlement => action == ActionView::AwaitDirectState(
                    "lightning_settlement_pending"@,
                ),
                ReverseRecoveryPhase::AwaitPaid => action == ActionView::AwaitDirectState(
                    "lightning_paid"@,
                ),
                ReverseRecoveryPhase::AwaitCompleted => action == ActionView::AwaitDirectState(
                    "completed"@,
                ),
                ReverseRecoveryPhase::AwaitPaymentEnd => action == ActionView::Perform(
                    Task::AwaitPaymentEnd,
                    seq![invoice, payment_hash],
                ),
                ReverseRecoveryPhase::ReadUnspent => action == ActionView::Perform(
                    Task::ReadUnspent,
                    seq!["doomsday-reverse-outpoint"@, funding_id, decimal(funding_output as nat)],
                ),
                ReverseRecoveryPhase::AwaitClose => action == ActionView::Perform(
                    Task::AwaitDirectClose,
                    seq![],
                ),
                ReverseRecoveryPhase::IngestClose => action == ActionView::AwaitClose(
                    CloseCheckView {
                        outcome: "completed"@,
                        bitcoin: Some(claim_id),
                        liquid: None,
                        lightning: Some(
                            LightningView::Outgoing(invoice, payment_hash, "complete"@),
                        ),
                    },
                ),
                ReverseRecoveryPhase::RemoveSecret => action == ActionView::Perform(
                    Task::RemoveSecret,
                    seq![start.case.journey_label()],
                ),
                ReverseRecoveryPhase::Finished => action == ActionView::Finish,
            }
        }),
{
    law_reverse_recovery_keeps_what_it_was_told(trace, last);
}

/// What the recovery of a reverse case reports at its end is what it was told on the way: each
/// identifier in the report is the one that the reply to the named phase gave, or one that the run
/// started with.
pub proof fn law_reverse_recovery_doc_names_what_it_was_told(
    trace: Seq<(ReverseRecoveryRunView, ReplyView)>,
    last: int,
)
    requires
        is_reverse_recovery_trace(trace),
        0 <= last < trace.len(),
        trace[last].0.phase == ReverseRecoveryPhase::Finished,
    ensures
        ({
            let start = trace[0].0;
            let funding_id = outpoint_reading(
                reverse_recovery_told(trace, ReverseRecoveryPhase::AwaitFunding)->Direct_content,
            )->Ok_0.0;
            let funding_output = outpoint_reading(
                reverse_recovery_told(trace, ReverseRecoveryPhase::AwaitFunding)->Direct_content,
            )->Ok_0.1;
            let payment_hash = reverse_recovery_told(trace, ReverseRecoveryPhase::LoadSecret)->Texts_0[0];
            let claim_id = reverse_recovery_told(trace, ReverseRecoveryPhase::BuildClaim)->Texts_0[1];
            reverse_recovery_doc(trace[last].0) == JsonView::Object(
                no_members().insert("proof_class"@, text_doc("authenticated_direct_reverse_recovery"@)).insert("provider_pubkey"@, text_doc(start.provider_pubkey)).insert("order_id"@, text_doc(start.order_id)).insert("funding_transaction_id"@, text_doc(funding_id)).insert("funding_output_index"@, number_doc(funding_output as u64)).insert("claim_transaction_id"@, text_doc(claim_id)).insert("payment_hash"@, text_doc(payment_hash)).insert("outcome"@, text_doc("completed"@)).insert("controller_audit"@, start.controller_audit).insert(
                    "checks"@,
                    JsonView::Object(
                        no_members().insert(
                            "fresh_requester_process_restored_before_relay"@,
                            JsonView::Bool(true),
                        ).insert("relay_connections_after_restore"@, number_doc(0)).insert("relay_processes_absent"@, JsonView::Bool(true)).insert("provider_http_websocket_api_absent"@, JsonView::Bool(true)).insert("direct_channel_nip59_only"@, JsonView::Bool(true)).insert("direct_channel_post_contract_only"@, JsonView::Bool(true)).insert("exact_durable_rfq_replayed"@, JsonView::Bool(true)).insert(
                            "direct_channel_opened_rfq_or_new_session"@,
                            JsonView::Bool(false),
                        ).insert(
                            "direct_rounds"@,
                            number_doc(trace[last].0.direct_rounds as u64),
                        ).insert("reverse_package_mode"@, text_doc("wallet_sign"@)).insert("verified_local_chain_observation"@, JsonView::Bool(true)).insert(
                            "verified_local_lightning_observation"@,
                            JsonView::Bool(true),
                        ).insert("exact_outpoint_spent"@, JsonView::Bool(true)).insert(
                            "transaction_confirmed"@,
                            JsonView::Bool(true),
                        ).insert("lightning_paid"@, JsonView::Bool(true)),
                    ),
                ),
            )
        }),
{
    law_reverse_recovery_keeps_what_it_was_told(trace, last);
}

/// Whether every reply of a trace answers the action that it is told for.
pub open spec fn is_answered_reverse_recovery(
    trace: Seq<(ReverseRecoveryRunView, ReplyView)>,
    kinds: RecordKinds,
    provider: Seq<char>,
) -> bool {
    forall|i: int|
        0 <= i < trace.len() - 1 ==> answers(
            reverse_recovery_action((#[trigger] trace[i]).0),
            trace[i].1,
            kinds,
            provider,
        )
}

/// The claim is broadcast only after the provider said that the lock is final.
pub proof fn law_reverse_recovery_claims_only_final_funding(
    trace: Seq<(ReverseRecoveryRunView, ReplyView)>,
    kinds: RecordKinds,
    provider: Seq<char>,
    last: int,
)
    requires
        is_reverse_recovery_trace(trace),
        is_answered_reverse_recovery(trace, kinds, provider),
        0 <= last < trace.len(),
        trace[last].0.phase == ReverseRecoveryPhase::BroadcastClaim,
    ensures
        exists|i: int|
            0 <= i < last && (#[trigger] trace[i]).0.phase == ReverseRecoveryPhase::AwaitFinal &&
                says_directly(
                trace[i].1,
                kinds,
                provider,
                "funding_final"@,
            ),
{
    let i = lemma_milestone(
        trace,
        |run: ReverseRecoveryRunView, reply: ReplyView| reverse_recovery_step(run, reply),
        |run: ReverseRecoveryRunView| run.phase.rank(),
        7,
        last,
    );
    assert(trace[i].0.phase == ReverseRecoveryPhase::AwaitFinal);
    assert(answers(reverse_recovery_action(trace[i].0), trace[i].1, kinds, provider));
}

/// The claim is broadcast only after it has been recorded.
pub proof fn law_reverse_recovery_records_before_broadcast(
    trace: Seq<(ReverseRecoveryRunView, ReplyView)>,
    last: int,
)
    requires
        is_reverse_recovery_trace(trace),
        0 <= last < trace.len(),
        trace[last].0.phase == ReverseRecoveryPhase::BroadcastClaim,
    ensures
        exists|i: int|
            0 <= i < last && (#[trigger] trace[i]).0.phase == ReverseRecoveryPhase::RecordClaim &&
                trace[i].1 == ReplyView::Done,
{
    let i = lemma_milestone(
        trace,
        |run: ReverseRecoveryRunView, reply: ReplyView| reverse_recovery_step(run, reply),
        |run: ReverseRecoveryRunView| run.phase.rank(),
        18,
        last,
    );
    assert(trace[i].0.phase == ReverseRecoveryPhase::RecordClaim);
    assert(reverse_recovery_step(trace[i].0, trace[i].1) == Ok::<ReverseRecoveryRunView,
        Seq<char>>(trace[i + 1].0));
}

/// The claim is signed only after the planner has asked for it.
pub proof fn law_reverse_recovery_claims_only_when_planned(
    trace: Seq<(ReverseRecoveryRunView, ReplyView)>,
    last: int,
)
    requires
        is_reverse_recovery_trace(trace),
        0 <= last < trace.len(),
        trace[last].0.phase == ReverseRecoveryPhase::SignClaim,
    ensures
        exists|i: int|
            0 <= i < last && (#[trigger] trace[i]).0.phase == ReverseRecoveryPhase::PlanClaim && (
            trace[i].1 matches ReplyView::Planned(Ok(PlanView::RequestWalletClaim(_)))),
{
    let i = lemma_milestone(
        trace,
        |run: ReverseRecoveryRunView, reply: ReplyView| reverse_recovery_step(run, reply),
        |run: ReverseRecoveryRunView| run.phase.rank(),
        16,
        last,
    );
    assert(trace[i].0.phase == ReverseRecoveryPhase::PlanClaim);
    assert(reverse_recovery_step(trace[i].0, trace[i].1) == Ok::<ReverseRecoveryRunView,
        Seq<char>>(trace[i + 1].0));
}

/// A run that holds what it was told asks with the claim that was built.
proof fn lemma_reverse_claim_is_asked_with(
    trace: Seq<(ReverseRecoveryRunView, ReplyView)>,
    run: ReverseRecoveryRunView,
)
    requires
        reverse_recovery_holds(trace, run),
    ensures
        ({
            let claim = reverse_recovery_told(trace, ReverseRecoveryPhase::BuildClaim)->Texts_0;
            &&& run.phase == ReverseRecoveryPhase::RecordClaim ==> reverse_recovery_action(run)
                == ActionView::Perform(Task::RecordSignedExit, seq![claim[1], claim[0]])
            &&& run.phase == ReverseRecoveryPhase::BroadcastClaim ==> reverse_recovery_action(run)
                == ActionView::Perform(
                Task::BroadcastBitcoin,
                seq!["doomsday-reverse-claim"@, claim[0], claim[1]],
            )
            &&& run.phase == ReverseRecoveryPhase::SayClaimed ==> reverse_recovery_action(run)
                == ActionView::SayDirect(
                "requester_claimed"@,
                no_members().insert("transaction_id"@, text_doc(claim[1])),
            )
        }),
{
}

/// Where the claim of a reverse case was built, recorded and broadcast.
#[verifier::rlimit(60)]
#[verifier::spinoff_prover]
proof fn lemma_reverse_claim_was_made(
    trace: Seq<(ReverseRecoveryRunView, ReplyView)>,
    last: int,
) -> (places: (int, int, int))
    requires
        is_reverse_recovery_trace(trace),
        0 <= last < trace.len(),
        trace[last].0.phase == ReverseRecoveryPhase::SayClaimed,
    ensures
        0 <= places.0 < places.1 < places.2 < last,
        trace[places.0].0.phase == ReverseRecoveryPhase::BuildClaim,
        trace[places.1].0.phase == ReverseRecoveryPhase::RecordClaim,
        trace[places.2].0.phase == ReverseRecoveryPhase::BroadcastClaim,
        trace[places.0].1 == reverse_recovery_told(trace, ReverseRecoveryPhase::BuildClaim),
        trace[places.0].1 is Texts,
{
    let third = lemma_milestone(
        trace,
        |run: ReverseRecoveryRunView, reply: ReplyView| reverse_recovery_step(run, reply),
        |run: ReverseRecoveryRunView| run.phase.rank(),
        ReverseRecoveryPhase::BroadcastClaim.rank(),
        last,
    );
    assert(trace[third].0.phase == ReverseRecoveryPhase::BroadcastClaim);
    let second = lemma_milestone(
        trace,
        |run: ReverseRecoveryRunView, reply: ReplyView| reverse_recovery_step(run, reply),
        |run: ReverseRecoveryRunView| run.phase.rank(),
        ReverseRecoveryPhase::RecordClaim.rank(),
        third,
    );
    assert(trace[second].0.phase == ReverseRecoveryPhase::RecordClaim);
    let first = lemma_milestone(
        trace,
        |run: ReverseRecoveryRunView, reply: ReplyView| reverse_recovery_step(run, reply),
        |run: ReverseRecoveryRunView| run.phase.rank(),
        ReverseRecoveryPhase::BuildClaim.rank(),
        second,
    );
    assert(trace[first].0.phase == ReverseRecoveryPhase::BuildClaim);
    lemma_reverse_recovery_told_once(trace, first);
    assert(reverse_recovery_step(trace[first].0, trace[first].1) == Ok::<
        ReverseRecoveryRunView,
        Seq<char>,
    >(trace[first + 1].0));
    (first, second, third)
}

/// The claim that is said to be made is the claim that was made: the transaction that the provider is
/// told of is the one that the built claim was given for, which was recorded and broadcast before,
/// and the one that the close has to name.
pub proof fn law_reverse_recovery_says_the_claim_it_broadcast(
    trace: Seq<(ReverseRecoveryRunView, ReplyView)>,
    last: int,
) -> (places: (int, int, int))
    requires
        is_reverse_recovery_trace(trace),
        0 <= last < trace.len(),
        trace[last].0.phase == ReverseRecoveryPhase::SayClaimed,
    ensures
        0 <= places.0 < places.1 < places.2 < last,
        reverse_recovery_action(trace[places.0].0) matches ActionView::Perform(Task::BuildClaim, _),
        trace[places.0].1 is Texts,
        ({
            let claim = trace[places.0].1->Texts_0;
            &&& reverse_recovery_action(trace[places.1].0) == ActionView::Perform(
                Task::RecordSignedExit,
                seq![claim[1], claim[0]],
            )
            &&& reverse_recovery_action(trace[places.2].0) == ActionView::Perform(
                Task::BroadcastBitcoin,
                seq!["doomsday-reverse-claim"@, claim[0], claim[1]],
            )
            &&& reverse_recovery_action(trace[last].0) == ActionView::SayDirect(
                "requester_claimed"@,
                no_members().insert("transaction_id"@, text_doc(claim[1])),
            )
        }),
{
    let (first, second, third) = lemma_reverse_claim_was_made(trace, last);
    law_reverse_recovery_keeps_what_it_was_told(trace, second);
    law_reverse_recovery_keeps_what_it_was_told(trace, third);
    law_reverse_recovery_keeps_what_it_was_told(trace, last);
    lemma_reverse_claim_is_asked_with(trace, trace[second].0);
    lemma_reverse_claim_is_asked_with(trace, trace[third].0);
    lemma_reverse_claim_is_asked_with(trace, trace[last].0);
    (first, second, third)
}

/// The rounds of the direct channel are counted as they are made: a wait adds those that it took, an
/// exchange adds one, and nothing else counts.
pub proof fn law_reverse_recovery_counts_its_rounds(run: ReverseRecoveryRunView, reply: ReplyView)
    requires
        reverse_recovery_step(run, reply) is Ok,
    ensures
        ({
            let made = match (reverse_recovery_action(run), reply) {
                (_, ReplyView::Direct { rounds, .. }) => rounds,
                (ActionView::Perform(Task::ExchangeDirect, _), _) => 1,
                (_, ReplyView::Number(value)) if run.phase == ReverseRecoveryPhase::AwaitClose =>
                    rounds_of(value),
                _ => 0,
            };
            reverse_recovery_step(run, reply)->Ok_0.direct_rounds == more_rounds(
                run.direct_rounds,
                made,
            )
        }),
{
}

/// The secret is removed only after the close has been verified.
pub proof fn law_reverse_recovery_keeps_its_secret_to_the_end(
    trace: Seq<(ReverseRecoveryRunView, ReplyView)>,
    kinds: RecordKinds,
    provider: Seq<char>,
    last: int,
)
    requires
        is_reverse_recovery_trace(trace),
        is_answered_reverse_recovery(trace, kinds, provider),
        0 <= last < trace.len(),
        trace[last].0.phase == ReverseRecoveryPhase::RemoveSecret,
    ensures
        exists|i: int|
            0 <= i < last && (#[trigger] trace[i]).0.phase == ReverseRecoveryPhase::IngestClose &&
                closes(
                trace[i].1,
                kinds,
                provider,
                "completed"@,
            ),
{
    let i = lemma_milestone(
        trace,
        |run: ReverseRecoveryRunView, reply: ReplyView| reverse_recovery_step(run, reply),
        |run: ReverseRecoveryRunView| run.phase.rank(),
        29,
        last,
    );
    assert(trace[i].0.phase == ReverseRecoveryPhase::IngestClose);
    assert(answers(reverse_recovery_action(trace[i].0), trace[i].1, kinds, provider));
}

/// The proof of a reverse case that was recovered.
pub open spec fn reverse_recovery_doc(run: ReverseRecoveryRunView) -> JsonView {
    JsonView::Object(
        no_members().insert(
            "proof_class"@,
            text_doc("authenticated_direct_reverse_recovery"@),
        ).insert("provider_pubkey"@, text_doc(run.provider_pubkey)).insert(
            "order_id"@,
            text_doc(run.order_id),
        ).insert("funding_transaction_id"@, text_doc(run.funding_id)).insert(
            "funding_output_index"@,
            number_doc(run.funding_output as u64),
        ).insert("claim_transaction_id"@, text_doc(run.claim_id)).insert(
            "payment_hash"@,
            text_doc(run.payment_hash),
        ).insert("outcome"@, text_doc("completed"@)).insert(
            "controller_audit"@,
            run.controller_audit,
        ).insert(
            "checks"@,
            JsonView::Object(
                no_members().insert(
                    "fresh_requester_process_restored_before_relay"@,
                    JsonView::Bool(true),
                ).insert("relay_connections_after_restore"@, number_doc(0)).insert(
                    "relay_processes_absent"@,
                    JsonView::Bool(true),
                ).insert("provider_http_websocket_api_absent"@, JsonView::Bool(true)).insert(
                    "direct_channel_nip59_only"@,
                    JsonView::Bool(true),
                ).insert("direct_channel_post_contract_only"@, JsonView::Bool(true)).insert(
                    "exact_durable_rfq_replayed"@,
                    JsonView::Bool(true),
                ).insert("direct_channel_opened_rfq_or_new_session"@, JsonView::Bool(false)).insert(
                    "direct_rounds"@,
                    number_doc(run.direct_rounds as u64),
                ).insert("reverse_package_mode"@, text_doc("wallet_sign"@)).insert(
                    "verified_local_chain_observation"@,
                    JsonView::Bool(true),
                ).insert("verified_local_lightning_observation"@, JsonView::Bool(true)).insert(
                    "exact_outpoint_spent"@,
                    JsonView::Bool(true),
                ).insert("transaction_confirmed"@, JsonView::Bool(true)).insert(
                    "lightning_paid"@,
                    JsonView::Bool(true),
                ),
            ),
        ),
    )
}

impl ReverseRecoveryRun {
    fn recovery_document(&self) -> (document: Json)
        ensures
            document@ == reverse_recovery_doc(self@),
    {
        Json::object(
            JsonObject::new().with_text(
                "proof_class",
                "authenticated_direct_reverse_recovery",
            ).with_text("provider_pubkey", self.provider_pubkey.as_str()).with_text(
                "order_id",
                self.order_id.as_str(),
            ).with_text("funding_transaction_id", self.funding_id.as_str()).with_number(
                "funding_output_index",
                self.funding_output as u64,
            ).with_text("claim_transaction_id", self.claim_id.as_str()).with_text(
                "payment_hash",
                self.payment_hash.as_str(),
            ).with_text("outcome", "completed").with(
                "controller_audit",
                self.controller_audit.copy(),
            ).with(
                "checks",
                Json::object(
                    JsonObject::new().with_bool(
                        "fresh_requester_process_restored_before_relay",
                        true,
                    ).with_number("relay_connections_after_restore", 0).with_bool(
                        "relay_processes_absent",
                        true,
                    ).with_bool("provider_http_websocket_api_absent", true).with_bool(
                        "direct_channel_nip59_only",
                        true,
                    ).with_bool("direct_channel_post_contract_only", true).with_bool(
                        "exact_durable_rfq_replayed",
                        true,
                    ).with_bool("direct_channel_opened_rfq_or_new_session", false).with_number(
                        "direct_rounds",
                        self.direct_rounds as u64,
                    ).with_text("reverse_package_mode", "wallet_sign").with_bool(
                        "verified_local_chain_observation",
                        true,
                    ).with_bool("verified_local_lightning_observation", true).with_bool(
                        "exact_outpoint_spent",
                        true,
                    ).with_bool("transaction_confirmed", true).with_bool("lightning_paid", true),
                ),
            ),
        )
    }

    /// The proof of a reverse case that was recovered; nothing before it is over.
    pub fn recovered(&self) -> (document: Option<Json>)
        ensures
            match document {
                Some(document) => self@.phase == ReverseRecoveryPhase::Finished && document@ == reverse_recovery_doc(self@),
                None => self@.phase != ReverseRecoveryPhase::Finished,
            },
    {
        if self.phase == ReverseRecoveryPhase::Finished {
            Some(self.recovery_document())
        } else {
            None
        }
    }
}

/// The phases of the recovery of a Liquid submarine case, in their order.
#[derive(Clone, Copy, Debug, PartialEq, Eq, Structural)]
pub enum LiquidRefundRecoveryPhase {
    RestoreRequest,
    AwaitFundingPropagated,
    ReadHeight,
    MineMaturity,
    BroadcastRefund,
    AwaitRefundPropagated,
    MineRefund,
    ReadFunding,
    ReadRefund,
    FinalizeInvoice,
    ReadRecords,
    RemoveSecret,
    Finished,
}

impl LiquidRefundRecoveryPhase {
    /// The place of the phase in their order.
    pub open spec fn rank(self) -> int {
        match self {
            LiquidRefundRecoveryPhase::RestoreRequest => 0,
            LiquidRefundRecoveryPhase::AwaitFundingPropagated => 1,
            LiquidRefundRecoveryPhase::ReadHeight => 2,
            LiquidRefundRecoveryPhase::MineMaturity => 3,
            LiquidRefundRecoveryPhase::BroadcastRefund => 4,
            LiquidRefundRecoveryPhase::AwaitRefundPropagated => 5,
            LiquidRefundRecoveryPhase::MineRefund => 6,
            LiquidRefundRecoveryPhase::ReadFunding => 7,
            LiquidRefundRecoveryPhase::ReadRefund => 8,
            LiquidRefundRecoveryPhase::FinalizeInvoice => 9,
            LiquidRefundRecoveryPhase::ReadRecords => 10,
            LiquidRefundRecoveryPhase::RemoveSecret => 11,
            LiquidRefundRecoveryPhase::Finished => 12,
        }
    }
}

/// The refund of a Liquid submarine swap whose provider is gone.
pub struct LiquidRefundRecoveryRun {
    pub phase: LiquidRefundRecoveryPhase,
    pub case: DoomsdayCase,
    pub confirmations: u64,
    pub contract: Json,
    pub offering_id: Option<String>,
    pub kinds: RecordKinds,
    pub funding_id: String,
    pub funding_output: u32,
    pub timelock: u32,
    pub height: u32,
    pub refund_id: String,
    pub funding_hex: String,
    pub refund_hex: String,
    pub payment_hash: String,
    pub lifecycle: Json,
}

/// The refund of a Liquid submarine swap whose provider is gone.
#[verifier::ext_equal]
pub struct LiquidRefundRecoveryRunView {
    pub phase: LiquidRefundRecoveryPhase,
    pub case: DoomsdayCase,
    pub confirmations: u64,
    pub contract: JsonView,
    pub offering_id: Option<Seq<char>>,
    pub kinds: RecordKinds,
    pub funding_id: Seq<char>,
    pub funding_output: u32,
    pub timelock: u32,
    pub height: u32,
    pub refund_id: Seq<char>,
    pub funding_hex: Seq<char>,
    pub refund_hex: Seq<char>,
    pub payment_hash: Seq<char>,
    pub lifecycle: JsonView,
}

impl View for LiquidRefundRecoveryRun {
    type V = LiquidRefundRecoveryRunView;

    open spec fn view(&self) -> LiquidRefundRecoveryRunView {
        LiquidRefundRecoveryRunView {
            phase: self.phase,
            case: self.case,
            confirmations: self.confirmations,
            contract: self.contract@,
            offering_id: maybe(self.offering_id),
            kinds: self.kinds,
            funding_id: self.funding_id@,
            funding_output: self.funding_output,
            timelock: self.timelock,
            height: self.height,
            refund_id: self.refund_id@,
            funding_hex: self.funding_hex@,
            refund_hex: self.refund_hex@,
            payment_hash: self.payment_hash@,
            lifecycle: self.lifecycle@,
        }
    }
}

/// What the recovery of a Liquid submarine case asks for next.
pub open spec fn liquid_refund_recovery_action(run: LiquidRefundRecoveryRunView) -> ActionView {
    match run.phase {
        LiquidRefundRecoveryPhase::RestoreRequest => ActionView::Perform(
            Task::RestoreLiquidRequest,
            seq![],
        ),
        LiquidRefundRecoveryPhase::AwaitFundingPropagated => ActionView::AwaitTransaction(
            "liquid"@,
            run.funding_id,
            "doomsday-liquid-submarine-funding"@,
        ),
        LiquidRefundRecoveryPhase::ReadHeight => ActionView::Perform(
            Task::ReadHeight,
            seq!["doomsday-liquid-submarine-height"@],
        ),
        LiquidRefundRecoveryPhase::MineMaturity => ActionView::Mine(
            "liquid"@,
            blocks_until(run.timelock, run.height),
            "doomsday-liquid-submarine-maturity"@,
        ),
        LiquidRefundRecoveryPhase::BroadcastRefund => ActionView::Perform(
            Task::BroadcastLiquidExit,
            seq![],
        ),
        LiquidRefundRecoveryPhase::AwaitRefundPropagated => ActionView::AwaitTransaction(
            "liquid"@,
            run.refund_id,
            "doomsday-liquid-submarine-refund"@,
        ),
        LiquidRefundRecoveryPhase::MineRefund => ActionView::Mine(
            "liquid"@,
            run.confirmations,
            "doomsday-liquid-submarine-refund"@,
        ),
        LiquidRefundRecoveryPhase::ReadFunding => ActionView::ReadTransaction(
            "liquid"@,
            run.funding_id,
            "doomsday-liquid-submarine-funding-proof"@,
        ),
        LiquidRefundRecoveryPhase::ReadRefund => ActionView::ReadTransaction(
            "liquid"@,
            run.refund_id,
            "doomsday-liquid-submarine-refund-proof"@,
        ),
        LiquidRefundRecoveryPhase::FinalizeInvoice => ActionView::Perform(
            Task::FinalizeInvoice,
            seq![run.case.invoice_text(), run.payment_hash],
        ),
        LiquidRefundRecoveryPhase::ReadRecords => ActionView::Perform(Task::ReadRecords, seq![]),
        LiquidRefundRecoveryPhase::RemoveSecret => ActionView::Perform(
            Task::RemoveSecret,
            seq![run.case.journey_label()],
        ),
        LiquidRefundRecoveryPhase::Finished => ActionView::Finish,
    }
}

/// Where a reply takes the recovery of a Liquid submarine case.
pub open spec fn liquid_refund_recovery_step(
    run: LiquidRefundRecoveryRunView,
    reply: ReplyView,
) -> Result<
    LiquidRefundRecoveryRunView,
    Seq<char>,
> {
    match (run.phase, reply) {
        (LiquidRefundRecoveryPhase::RestoreRequest, ReplyView::LiquidRequest { swap_type, purpose, exit }) => {
            if swap_type != "submarine"@
                || purpose != "requester_broadcast"@
                || !is_presigned_refund(exit)
            {
                Err("restored Liquid submarine refund has another shape"@)
            } else {
                Ok(
                    LiquidRefundRecoveryRunView {
                        phase: LiquidRefundRecoveryPhase::AwaitFundingPropagated,
                        funding_id: exit.funding_id,
                        funding_output: exit.funding_output,
                        timelock: exit.timelock,
                        ..run
                    },
                )
            }
        },
        (LiquidRefundRecoveryPhase::AwaitFundingPropagated, ReplyView::Done) => Ok(
            LiquidRefundRecoveryRunView { phase: LiquidRefundRecoveryPhase::ReadHeight, ..run },
        ),
        (LiquidRefundRecoveryPhase::ReadHeight, ReplyView::Number(value)) => match height_reading(
            value,
            "Liquid recovery height exceeds u32"@,
        ) {
            Err(message) => Err(message),
            Ok(height) => {
                if height < run.timelock {
                    Ok(
                        LiquidRefundRecoveryRunView {
                            phase: LiquidRefundRecoveryPhase::MineMaturity,
                            height: height,
                            ..run
                        },
                    )
                } else {
                    Ok(
                        LiquidRefundRecoveryRunView {
                            phase: LiquidRefundRecoveryPhase::BroadcastRefund,
                            height: height,
                            ..run
                        },
                    )
                }
            },
        },
        (LiquidRefundRecoveryPhase::MineMaturity, ReplyView::Done) => Ok(
            LiquidRefundRecoveryRunView {
                phase: LiquidRefundRecoveryPhase::BroadcastRefund,
                ..run
            },
        ),
        (LiquidRefundRecoveryPhase::BroadcastRefund, ReplyView::Texts(texts)) => {
            if texts.len() != 2 {
                Err(wrong_reply())
            } else if texts[1] != texts[0] {
                Err("elementsd accepted another restored Liquid refund"@)
            } else {
                Ok(
                    LiquidRefundRecoveryRunView {
                        phase: LiquidRefundRecoveryPhase::AwaitRefundPropagated,
                        refund_id: texts[0],
                        ..run
                    },
                )
            }
        },
        (LiquidRefundRecoveryPhase::AwaitRefundPropagated, ReplyView::Done) => Ok(
            LiquidRefundRecoveryRunView { phase: LiquidRefundRecoveryPhase::MineRefund, ..run },
        ),
        (LiquidRefundRecoveryPhase::MineRefund, ReplyView::Done) => Ok(
            LiquidRefundRecoveryRunView { phase: LiquidRefundRecoveryPhase::ReadFunding, ..run },
        ),
        (LiquidRefundRecoveryPhase::ReadFunding, ReplyView::Texts(texts)) => {
            if texts.len() != 1 {
                Err(wrong_reply())
            } else {
                Ok(
                    LiquidRefundRecoveryRunView {
                        phase: LiquidRefundRecoveryPhase::ReadRefund,
                        funding_hex: texts[0],
                        ..run
                    },
                )
            }
        },
        (LiquidRefundRecoveryPhase::ReadRefund, ReplyView::Texts(texts)) => {
            if texts.len() != 1 {
                Err(wrong_reply())
            } else {
                match member_text(run.contract, "payment_hash"@) {
                    None => Err("Liquid submarine recovery has no payment hash"@),
                    Some(hash) => Ok(
                        LiquidRefundRecoveryRunView {
                            phase: LiquidRefundRecoveryPhase::FinalizeInvoice,
                            refund_hex: texts[0],
                            payment_hash: hash,
                            ..run
                        },
                    ),
                }
            }
        },
        (LiquidRefundRecoveryPhase::FinalizeInvoice, ReplyView::Removal { deleted, remaining }) => match removal_reading(
            deleted,
            remaining,
            run.payment_hash,
        ) {
            Err(message) => Err(message),
            Ok(removed) => Ok(
                LiquidRefundRecoveryRunView {
                    phase: LiquidRefundRecoveryPhase::ReadRecords,
                    ..run
                },
            ),
        },
        (LiquidRefundRecoveryPhase::ReadRecords, ReplyView::Records(records)) => match recovered_lifecycle_reading(
            records,
            run.kinds,
            run.offering_id,
            None,
        ) {
            Err(message) => Err(message),
            Ok(ids) => Ok(
                LiquidRefundRecoveryRunView {
                    phase: LiquidRefundRecoveryPhase::RemoveSecret,
                    lifecycle: ids,
                    ..run
                },
            ),
        },
        (LiquidRefundRecoveryPhase::RemoveSecret, ReplyView::Done) => Ok(
            LiquidRefundRecoveryRunView { phase: LiquidRefundRecoveryPhase::Finished, ..run },
        ),
        _ => Err(wrong_reply()),
    }
}

impl LiquidRefundRecoveryRun {
    /// The recovery of a Liquid submarine case before its first action.
    pub fn new(
        case: DoomsdayCase,
        confirmations: u64,
        contract: &Json,
        offering_id: Option<String>,
        kinds: RecordKinds,
    ) -> (run: LiquidRefundRecoveryRun)
        ensures
            run@.phase == LiquidRefundRecoveryPhase::RestoreRequest,
            run@.case == case,
            run@.confirmations == confirmations,
            run@.contract == contract@,
            run@.offering_id == maybe(offering_id),
            run@.kinds == kinds,
            run@.funding_id == Seq::<char>::empty(),
            run@.funding_output == 0,
            run@.timelock == 0,
            run@.height == 0,
            run@.refund_id == Seq::<char>::empty(),
            run@.funding_hex == Seq::<char>::empty(),
            run@.refund_hex == Seq::<char>::empty(),
            run@.payment_hash == Seq::<char>::empty(),
            run@.lifecycle == JsonView::Null,
    {
        LiquidRefundRecoveryRun {
            phase: LiquidRefundRecoveryPhase::RestoreRequest,
            case,
            confirmations,
            contract: contract.copy(),
            offering_id,
            kinds,
            funding_id: String::new(),
            funding_output: 0,
            timelock: 0,
            height: 0,
            refund_id: String::new(),
            funding_hex: String::new(),
            refund_hex: String::new(),
            payment_hash: String::new(),
            lifecycle: Json::null(),
        }
    }

    /// What the journey asks for next.
    pub fn action(&self) -> (action: Action)
        ensures
            action@ == liquid_refund_recovery_action(self@),
    {
        match self.phase {
            LiquidRefundRecoveryPhase::RestoreRequest => perform(Task::RestoreLiquidRequest),
            LiquidRefundRecoveryPhase::AwaitFundingPropagated => Action::AwaitTransaction(
                "liquid".to_owned(),
                self.funding_id.clone(),
                "doomsday-liquid-submarine-funding",
            ),
            LiquidRefundRecoveryPhase::ReadHeight => perform_with(
                Task::ReadHeight,
                "doomsday-liquid-submarine-height",
            ),
            LiquidRefundRecoveryPhase::MineMaturity => Action::Mine(
                "liquid".to_owned(),
                count_blocks_until(self.timelock, self.height),
                "doomsday-liquid-submarine-maturity",
            ),
            LiquidRefundRecoveryPhase::BroadcastRefund => perform(Task::BroadcastLiquidExit),
            LiquidRefundRecoveryPhase::AwaitRefundPropagated => Action::AwaitTransaction(
                "liquid".to_owned(),
                self.refund_id.clone(),
                "doomsday-liquid-submarine-refund",
            ),
            LiquidRefundRecoveryPhase::MineRefund => Action::Mine(
                "liquid".to_owned(),
                self.confirmations,
                "doomsday-liquid-submarine-refund",
            ),
            LiquidRefundRecoveryPhase::ReadFunding => Action::ReadTransaction(
                "liquid".to_owned(),
                self.funding_id.clone(),
                "doomsday-liquid-submarine-funding-proof",
            ),
            LiquidRefundRecoveryPhase::ReadRefund => Action::ReadTransaction(
                "liquid".to_owned(),
                self.refund_id.clone(),
                "doomsday-liquid-submarine-refund-proof",
            ),
            LiquidRefundRecoveryPhase::FinalizeInvoice => perform_with_two(
                Task::FinalizeInvoice,
                self.case.invoice_label(),
                self.payment_hash.as_str(),
            ),
            LiquidRefundRecoveryPhase::ReadRecords => perform(Task::ReadRecords),
            LiquidRefundRecoveryPhase::RemoveSecret => perform_with(
                Task::RemoveSecret,
                self.case.journey_name(),
            ),
            LiquidRefundRecoveryPhase::Finished => Action::Finish,
        }
    }

    /// Takes a reply: the journey goes on to its next phase, or ends with a message.
    #[verifier::rlimit(60)]
    pub fn advance(&mut self, reply: Reply) -> (moved: Result<(), String>)
        ensures
            match moved {
                Ok(_) => liquid_refund_recovery_step(
                    old(self)@,
                    reply@,
                ) == Ok::<LiquidRefundRecoveryRunView, Seq<char>>(final(self)@),
                Err(message) => {
                    &&& liquid_refund_recovery_step(
                        old(self)@,
                        reply@,
                    ) == Err::<LiquidRefundRecoveryRunView, Seq<char>>(message@)
                    &&& final(self)@ == old(self)@
                },
            },
    {
        match (self.phase, reply) {
            (LiquidRefundRecoveryPhase::RestoreRequest, Reply::LiquidRequest { swap_type, purpose, exit }) => {
                if !same_text(swap_type.as_str(), "submarine")
                    || !same_text(purpose.as_str(), "requester_broadcast")
                    || !exit.is_presigned_refund()
                {
                    return Err("restored Liquid submarine refund has another shape".to_owned());
                }
                self.funding_id = exit.funding_id;
                self.funding_output = exit.funding_output;
                self.timelock = exit.timelock;
                self.phase = LiquidRefundRecoveryPhase::AwaitFundingPropagated;
                Ok(())
            },
            (LiquidRefundRecoveryPhase::AwaitFundingPropagated, Reply::Done) => {
                self.phase = LiquidRefundRecoveryPhase::ReadHeight;
                Ok(())
            },
            (LiquidRefundRecoveryPhase::ReadHeight, Reply::Number(value)) => {
                let height: u32 = narrow_height(value, "Liquid recovery height exceeds u32")?;
                self.height = height;
                self.phase = if height < self.timelock {
                    LiquidRefundRecoveryPhase::MineMaturity
                } else {
                    LiquidRefundRecoveryPhase::BroadcastRefund
                };
                Ok(())
            },
            (LiquidRefundRecoveryPhase::MineMaturity, Reply::Done) => {
                self.phase = LiquidRefundRecoveryPhase::BroadcastRefund;
                Ok(())
            },
            (LiquidRefundRecoveryPhase::BroadcastRefund, Reply::Texts(texts)) => {
                if texts.len() != 2 {
                    return Err(wrong_reply_text());
                }
                if !same_text(texts[1].as_str(), texts[0].as_str()) {
                    return Err("elementsd accepted another restored Liquid refund".to_owned());
                }
                self.refund_id = texts[0].clone();
                self.phase = LiquidRefundRecoveryPhase::AwaitRefundPropagated;
                Ok(())
            },
            (LiquidRefundRecoveryPhase::AwaitRefundPropagated, Reply::Done) => {
                self.phase = LiquidRefundRecoveryPhase::MineRefund;
                Ok(())
            },
            (LiquidRefundRecoveryPhase::MineRefund, Reply::Done) => {
                self.phase = LiquidRefundRecoveryPhase::ReadFunding;
                Ok(())
            },
            (LiquidRefundRecoveryPhase::ReadFunding, Reply::Texts(texts)) => {
                if texts.len() != 1 {
                    return Err(wrong_reply_text());
                }
                self.funding_hex = texts[0].clone();
                self.phase = LiquidRefundRecoveryPhase::ReadRefund;
                Ok(())
            },
            (LiquidRefundRecoveryPhase::ReadRefund, Reply::Texts(texts)) => {
                if texts.len() != 1 {
                    return Err(wrong_reply_text());
                }
                let hash: String = match self.contract.text_at("payment_hash") {
                    Some(hash) => hash.to_owned(),
                    None => {
                        return Err("Liquid submarine recovery has no payment hash".to_owned());
                    },
                };
                self.refund_hex = texts[0].clone();
                self.payment_hash = hash;
                self.phase = LiquidRefundRecoveryPhase::FinalizeInvoice;
                Ok(())
            },
            (LiquidRefundRecoveryPhase::FinalizeInvoice, Reply::Removal { deleted, remaining }) => {
                let removed: () = finalize_invoice_unpaid(
                    &deleted,
                    &remaining,
                    self.payment_hash.as_str(),
                )?;
                self.phase = LiquidRefundRecoveryPhase::ReadRecords;
                Ok(())
            },
            (LiquidRefundRecoveryPhase::ReadRecords, Reply::Records(records)) => {
                let ids: Json = recovered_lifecycle(&records, self.kinds, &self.offering_id, None)?;
                self.lifecycle = ids;
                self.phase = LiquidRefundRecoveryPhase::RemoveSecret;
                Ok(())
            },
            (LiquidRefundRecoveryPhase::RemoveSecret, Reply::Done) => {
                self.phase = LiquidRefundRecoveryPhase::Finished;
                Ok(())
            },
            _ => Err(wrong_reply_text()),
        }
    }
}

/// Whether each entry of a trace leads to the one after it, from the first phase on.
pub open spec fn is_liquid_refund_recovery_trace(
    trace: Seq<(LiquidRefundRecoveryRunView, ReplyView)>,
) -> bool {
    &&& trace.len() > 0
    &&& trace[0].0.phase == LiquidRefundRecoveryPhase::RestoreRequest
    &&& forall|i: int|
        0 <= i < trace.len() - 1 ==> liquid_refund_recovery_step(
            (#[trigger] trace[i]).0,
            trace[i].1,
        ) == Ok::<
            LiquidRefundRecoveryRunView,
            Seq<char>,
        >(trace[i + 1].0)
}

/// Each reply takes the recovery of a Liquid submarine case forward, never back and never in place.
pub proof fn law_liquid_refund_recovery_moves_forward(
    run: LiquidRefundRecoveryRunView,
    reply: ReplyView,
)
    requires
        liquid_refund_recovery_step(run, reply) is Ok,
    ensures
        run.phase.rank() < liquid_refund_recovery_step(run, reply)->Ok_0.phase.rank(),
{
}

/// Which replies take the recovery of a Liquid submarine case on, and to which phase: in each phase
/// exactly the replies that pass every check of that phase, and no others.
pub proof fn law_liquid_refund_recovery_goes_on_only_when_answered(
    run: LiquidRefundRecoveryRunView,
    reply: ReplyView,
)
    ensures
        ({
            let next = liquid_refund_recovery_step(run, reply);
            match run.phase {
                LiquidRefundRecoveryPhase::RestoreRequest => {
                    &&& next is Ok <==> {
                        &&& reply is LiquidRequest
                        &&& reply->LiquidRequest_swap_type == "submarine"@
                        &&& reply->LiquidRequest_purpose == "requester_broadcast"@
                        &&& is_presigned_refund(reply->LiquidRequest_exit)
                    }
                    &&& next is Ok ==> next->Ok_0.phase == LiquidRefundRecoveryPhase::AwaitFundingPropagated
                },
                LiquidRefundRecoveryPhase::AwaitFundingPropagated => {
                    &&& next is Ok <==> reply is Done
                    &&& next is Ok ==> next->Ok_0.phase == LiquidRefundRecoveryPhase::ReadHeight
                },
                LiquidRefundRecoveryPhase::ReadHeight => {
                    let case_1 = height_reading(
                        reply->Number_0,
                        "Liquid recovery height exceeds u32"@,
                    )->Ok_0 < run.timelock;
                    let case_2 = height_reading(
                        reply->Number_0,
                        "Liquid recovery height exceeds u32"@,
                    )->Ok_0 >= run.timelock;
                    &&& next is Ok <==> {
                        &&& reply is Number
                        &&& height_reading(
                            reply->Number_0,
                            "Liquid recovery height exceeds u32"@,
                        ) is Ok
                        &&& (case_1 || case_2)
                    }
                    &&& next is Ok && case_1 ==> next->Ok_0.phase == LiquidRefundRecoveryPhase::MineMaturity
                    &&& next is Ok && case_2 ==> next->Ok_0.phase == LiquidRefundRecoveryPhase::BroadcastRefund
                },
                LiquidRefundRecoveryPhase::MineMaturity => {
                    &&& next is Ok <==> reply is Done
                    &&& next is Ok ==> next->Ok_0.phase == LiquidRefundRecoveryPhase::BroadcastRefund
                },
                LiquidRefundRecoveryPhase::BroadcastRefund => {
                    &&& next is Ok <==> {
                        &&& reply is Texts
                        &&& reply->Texts_0.len() == 2
                        &&& reply->Texts_0[1] == reply->Texts_0[0]
                    }
                    &&& next is Ok ==> next->Ok_0.phase == LiquidRefundRecoveryPhase::AwaitRefundPropagated
                },
                LiquidRefundRecoveryPhase::AwaitRefundPropagated => {
                    &&& next is Ok <==> reply is Done
                    &&& next is Ok ==> next->Ok_0.phase == LiquidRefundRecoveryPhase::MineRefund
                },
                LiquidRefundRecoveryPhase::MineRefund => {
                    &&& next is Ok <==> reply is Done
                    &&& next is Ok ==> next->Ok_0.phase == LiquidRefundRecoveryPhase::ReadFunding
                },
                LiquidRefundRecoveryPhase::ReadFunding => {
                    &&& next is Ok <==> {
                        &&& reply is Texts
                        &&& reply->Texts_0.len() == 1
                    }
                    &&& next is Ok ==> next->Ok_0.phase == LiquidRefundRecoveryPhase::ReadRefund
                },
                LiquidRefundRecoveryPhase::ReadRefund => {
                    &&& next is Ok <==> {
                        &&& reply is Texts
                        &&& reply->Texts_0.len() == 1
                        &&& member_text(run.contract, "payment_hash"@) is Some
                    }
                    &&& next is Ok ==> next->Ok_0.phase == LiquidRefundRecoveryPhase::FinalizeInvoice
                },
                LiquidRefundRecoveryPhase::FinalizeInvoice => {
                    &&& next is Ok <==> {
                        &&& reply is Removal
                        &&& removal_reading(
                            reply->Removal_deleted,
                            reply->Removal_remaining,
                            run.payment_hash,
                        ) is Ok
                    }
                    &&& next is Ok ==> next->Ok_0.phase == LiquidRefundRecoveryPhase::ReadRecords
                },
                LiquidRefundRecoveryPhase::ReadRecords => {
                    &&& next is Ok <==> {
                        &&& reply is Records
                        &&& recovered_lifecycle_reading(
                            reply->Records_0,
                            run.kinds,
                            run.offering_id,
                            None,
                        ) is Ok
                    }
                    &&& next is Ok ==> next->Ok_0.phase == LiquidRefundRecoveryPhase::RemoveSecret
                },
                LiquidRefundRecoveryPhase::RemoveSecret => {
                    &&& next is Ok <==> reply is Done
                    &&& next is Ok ==> next->Ok_0.phase == LiquidRefundRecoveryPhase::Finished
                },
                LiquidRefundRecoveryPhase::Finished => next is Err,
            }
        }),
{
}

/// The reply that a trace of the recovery of a Liquid submarine case holds for a phase.
pub open spec fn liquid_refund_recovery_told(
    trace: Seq<(LiquidRefundRecoveryRunView, ReplyView)>,
    phase: LiquidRefundRecoveryPhase,
) -> ReplyView {
    trace[choose|i: int| 0 <= i < trace.len() && (#[trigger] trace[i]).0.phase == phase].1
}

/// The values that a run of the recovery of a Liquid submarine case holds, by the replies that gave
/// them: each stays as the reply to one phase gave it, or as the run started with it.
pub open spec fn liquid_refund_recovery_holds(
    trace: Seq<(LiquidRefundRecoveryRunView, ReplyView)>,
    run: LiquidRefundRecoveryRunView,
) -> bool {
    let start = trace[0].0;
    let funding_id = liquid_refund_recovery_told(
        trace,
        LiquidRefundRecoveryPhase::RestoreRequest,
    )->LiquidRequest_exit.funding_id;
    let funding_output = liquid_refund_recovery_told(
        trace,
        LiquidRefundRecoveryPhase::RestoreRequest,
    )->LiquidRequest_exit.funding_output;
    let timelock = liquid_refund_recovery_told(
        trace,
        LiquidRefundRecoveryPhase::RestoreRequest,
    )->LiquidRequest_exit.timelock;
    let height = height_reading(
        liquid_refund_recovery_told(trace, LiquidRefundRecoveryPhase::ReadHeight)->Number_0,
        "Liquid recovery height exceeds u32"@,
    )->Ok_0;
    let refund_id = liquid_refund_recovery_told(trace, LiquidRefundRecoveryPhase::BroadcastRefund)->Texts_0[0];
    let funding_hex = liquid_refund_recovery_told(trace, LiquidRefundRecoveryPhase::ReadFunding)->Texts_0[0];
    let refund_hex = liquid_refund_recovery_told(trace, LiquidRefundRecoveryPhase::ReadRefund)->Texts_0[0];
    let payment_hash = member_text(start.contract, "payment_hash"@)->0;
    let lifecycle = recovered_lifecycle_reading(
        liquid_refund_recovery_told(trace, LiquidRefundRecoveryPhase::ReadRecords)->Records_0,
        start.kinds,
        start.offering_id,
        None,
    )->Ok_0;
    &&& run.case == start.case
    &&& run.confirmations == start.confirmations
    &&& run.contract == start.contract
    &&& run.offering_id == start.offering_id
    &&& run.kinds == start.kinds
    &&& run.phase.rank() > LiquidRefundRecoveryPhase::RestoreRequest.rank()
        ==> run.funding_id == funding_id
    &&& run.phase.rank() > LiquidRefundRecoveryPhase::RestoreRequest.rank()
        ==> run.funding_output == funding_output
    &&& run.phase.rank() > LiquidRefundRecoveryPhase::RestoreRequest.rank()
        ==> run.timelock == timelock
    &&& run.phase.rank() > LiquidRefundRecoveryPhase::ReadHeight.rank() ==> run.height == height
    &&& run.phase.rank() > LiquidRefundRecoveryPhase::BroadcastRefund.rank()
        ==> run.refund_id == refund_id
    &&& run.phase.rank() > LiquidRefundRecoveryPhase::ReadFunding.rank()
        ==> run.funding_hex == funding_hex
    &&& run.phase.rank() > LiquidRefundRecoveryPhase::ReadRefund.rank()
        ==> run.refund_hex == refund_hex
    &&& run.phase.rank() > LiquidRefundRecoveryPhase::ReadRefund.rank()
        ==> run.payment_hash == payment_hash
    &&& run.phase.rank() > LiquidRefundRecoveryPhase::ReadRecords.rank()
        ==> run.lifecycle == lifecycle
}

/// No phase of the recovery of a Liquid submarine case comes twice in a trace.
proof fn lemma_liquid_refund_recovery_told_once(
    trace: Seq<(LiquidRefundRecoveryRunView, ReplyView)>,
    place: int,
)
    requires
        is_liquid_refund_recovery_trace(trace),
        0 <= place < trace.len(),
    ensures
        liquid_refund_recovery_told(trace, trace[place].0.phase) == trace[place].1,
{
    let phase = trace[place].0.phase;
    let other = choose|i: int| 0 <= i < trace.len() && (#[trigger] trace[i]).0.phase == phase;
    assert(trace[place].0.phase == phase);
    if other != place {
        let (early, late) = if other < place {
            (other, place)
        } else {
            (place, other)
        };
        assert forall|run: LiquidRefundRecoveryRunView, reply: ReplyView|
            (#[trigger] liquid_refund_recovery_step(run, reply)) is Ok implies run.phase.rank() < liquid_refund_recovery_step(
            run,
            reply,
        )->Ok_0.phase.rank() by {
            law_liquid_refund_recovery_moves_forward(run, reply);
        }
        lemma_ranks_rise(
            trace,
            |run: LiquidRefundRecoveryRunView, reply: ReplyView| liquid_refund_recovery_step(run, reply),
            |run: LiquidRefundRecoveryRunView| run.phase.rank(),
            early,
            late,
        );
    }
}

/// A reply keeps what the recovery of a Liquid submarine case holds, and adds what it tells.
proof fn lemma_liquid_refund_recovery_holds_on(
    trace: Seq<(LiquidRefundRecoveryRunView, ReplyView)>,
    run: LiquidRefundRecoveryRunView,
    reply: ReplyView,
)
    requires
        liquid_refund_recovery_holds(trace, run),
        liquid_refund_recovery_told(trace, run.phase) == reply,
        liquid_refund_recovery_step(run, reply) is Ok,
    ensures
        liquid_refund_recovery_holds(trace, liquid_refund_recovery_step(run, reply)->Ok_0),
{
    let next = liquid_refund_recovery_step(run, reply)->Ok_0;
    match run.phase {
        LiquidRefundRecoveryPhase::RestoreRequest => {
            assert(liquid_refund_recovery_holds(trace, next))
        },
        LiquidRefundRecoveryPhase::AwaitFundingPropagated => {
            assert(liquid_refund_recovery_holds(trace, next))
        },
        LiquidRefundRecoveryPhase::ReadHeight => assert(liquid_refund_recovery_holds(trace, next)),
        LiquidRefundRecoveryPhase::MineMaturity => {
            assert(liquid_refund_recovery_holds(trace, next))
        },
        LiquidRefundRecoveryPhase::BroadcastRefund => {
            assert(liquid_refund_recovery_holds(trace, next))
        },
        LiquidRefundRecoveryPhase::AwaitRefundPropagated => {
            assert(liquid_refund_recovery_holds(trace, next))
        },
        LiquidRefundRecoveryPhase::MineRefund => assert(liquid_refund_recovery_holds(trace, next)),
        LiquidRefundRecoveryPhase::ReadFunding => assert(liquid_refund_recovery_holds(trace, next)),
        LiquidRefundRecoveryPhase::ReadRefund => assert(liquid_refund_recovery_holds(trace, next)),
        LiquidRefundRecoveryPhase::FinalizeInvoice => {
            assert(liquid_refund_recovery_holds(trace, next))
        },
        LiquidRefundRecoveryPhase::ReadRecords => assert(liquid_refund_recovery_holds(trace, next)),
        LiquidRefundRecoveryPhase::RemoveSecret => {
            assert(liquid_refund_recovery_holds(trace, next))
        },
        LiquidRefundRecoveryPhase::Finished => assert(liquid_refund_recovery_holds(trace, next)),
    }
}

/// What the recovery of a Liquid submarine case has been told, it keeps: at every place of a trace
/// each value that the run holds is the one that the reply to the phase that asks for it gave, or
/// the one that the run started with.
pub proof fn law_liquid_refund_recovery_keeps_what_it_was_told(
    trace: Seq<(LiquidRefundRecoveryRunView, ReplyView)>,
    last: int,
)
    requires
        is_liquid_refund_recovery_trace(trace),
        0 <= last < trace.len(),
    ensures
        liquid_refund_recovery_holds(trace, trace[last].0),
    decreases last,
{
    if last > 0 {
        let before = last - 1;
        law_liquid_refund_recovery_keeps_what_it_was_told(trace, before);
        lemma_liquid_refund_recovery_told_once(trace, before);
        assert(liquid_refund_recovery_step(trace[before].0, trace[before].1) == Ok::<LiquidRefundRecoveryRunView, Seq<char>>(
            trace[before + 1].0,
        ));
        lemma_liquid_refund_recovery_holds_on(trace, trace[before].0, trace[before].1);
    }
}

/// What the recovery of a Liquid submarine case asks for in each phase, in terms of the replies
/// before it: the values in a request are those that the replies to the named phases gave, or those
/// that the run started with.
pub proof fn law_liquid_refund_recovery_asks_with_what_it_was_told(
    trace: Seq<(LiquidRefundRecoveryRunView, ReplyView)>,
    last: int,
)
    requires
        is_liquid_refund_recovery_trace(trace),
        0 <= last < trace.len(),
    ensures
        ({
            let start = trace[0].0;
            let funding_id = liquid_refund_recovery_told(
                trace,
                LiquidRefundRecoveryPhase::RestoreRequest,
            )->LiquidRequest_exit.funding_id;
            let timelock = liquid_refund_recovery_told(
                trace,
                LiquidRefundRecoveryPhase::RestoreRequest,
            )->LiquidRequest_exit.timelock;
            let height = height_reading(
                liquid_refund_recovery_told(trace, LiquidRefundRecoveryPhase::ReadHeight)->Number_0,
                "Liquid recovery height exceeds u32"@,
            )->Ok_0;
            let refund_id = liquid_refund_recovery_told(
                trace,
                LiquidRefundRecoveryPhase::BroadcastRefund,
            )->Texts_0[0];
            let payment_hash = member_text(start.contract, "payment_hash"@)->0;
            let action = liquid_refund_recovery_action(trace[last].0);
            match trace[last].0.phase {
                LiquidRefundRecoveryPhase::RestoreRequest => action == ActionView::Perform(
                    Task::RestoreLiquidRequest,
                    seq![],
                ),
                LiquidRefundRecoveryPhase::AwaitFundingPropagated => action == ActionView::AwaitTransaction(
                    "liquid"@,
                    funding_id,
                    "doomsday-liquid-submarine-funding"@,
                ),
                LiquidRefundRecoveryPhase::ReadHeight => action == ActionView::Perform(
                    Task::ReadHeight,
                    seq!["doomsday-liquid-submarine-height"@],
                ),
                LiquidRefundRecoveryPhase::MineMaturity => action == ActionView::Mine(
                    "liquid"@,
                    blocks_until(timelock, height),
                    "doomsday-liquid-submarine-maturity"@,
                ),
                LiquidRefundRecoveryPhase::BroadcastRefund => action == ActionView::Perform(
                    Task::BroadcastLiquidExit,
                    seq![],
                ),
                LiquidRefundRecoveryPhase::AwaitRefundPropagated => action == ActionView::AwaitTransaction(
                    "liquid"@,
                    refund_id,
                    "doomsday-liquid-submarine-refund"@,
                ),
                LiquidRefundRecoveryPhase::MineRefund => action == ActionView::Mine(
                    "liquid"@,
                    start.confirmations,
                    "doomsday-liquid-submarine-refund"@,
                ),
                LiquidRefundRecoveryPhase::ReadFunding => action == ActionView::ReadTransaction(
                    "liquid"@,
                    funding_id,
                    "doomsday-liquid-submarine-funding-proof"@,
                ),
                LiquidRefundRecoveryPhase::ReadRefund => action == ActionView::ReadTransaction(
                    "liquid"@,
                    refund_id,
                    "doomsday-liquid-submarine-refund-proof"@,
                ),
                LiquidRefundRecoveryPhase::FinalizeInvoice => action == ActionView::Perform(
                    Task::FinalizeInvoice,
                    seq![start.case.invoice_text(), payment_hash],
                ),
                LiquidRefundRecoveryPhase::ReadRecords => action == ActionView::Perform(
                    Task::ReadRecords,
                    seq![],
                ),
                LiquidRefundRecoveryPhase::RemoveSecret => action == ActionView::Perform(
                    Task::RemoveSecret,
                    seq![start.case.journey_label()],
                ),
                LiquidRefundRecoveryPhase::Finished => action == ActionView::Finish,
            }
        }),
{
    law_liquid_refund_recovery_keeps_what_it_was_told(trace, last);
}

/// What the recovery of a Liquid submarine case reports at its end is what it was told on the way:
/// each identifier in the report is the one that the reply to the named phase gave, or one that the
/// run started with.
pub proof fn law_liquid_refund_recovery_doc_names_what_it_was_told(
    trace: Seq<(LiquidRefundRecoveryRunView, ReplyView)>,
    last: int,
)
    requires
        is_liquid_refund_recovery_trace(trace),
        0 <= last < trace.len(),
        trace[last].0.phase == LiquidRefundRecoveryPhase::Finished,
    ensures
        ({
            let start = trace[0].0;
            let funding_id = liquid_refund_recovery_told(
                trace,
                LiquidRefundRecoveryPhase::RestoreRequest,
            )->LiquidRequest_exit.funding_id;
            let funding_output = liquid_refund_recovery_told(
                trace,
                LiquidRefundRecoveryPhase::RestoreRequest,
            )->LiquidRequest_exit.funding_output;
            let refund_id = liquid_refund_recovery_told(
                trace,
                LiquidRefundRecoveryPhase::BroadcastRefund,
            )->Texts_0[0];
            let funding_hex = liquid_refund_recovery_told(trace, LiquidRefundRecoveryPhase::ReadFunding)->Texts_0[0];
            let refund_hex = liquid_refund_recovery_told(trace, LiquidRefundRecoveryPhase::ReadRefund)->Texts_0[0];
            let payment_hash = member_text(start.contract, "payment_hash"@)->0;
            let lifecycle = recovered_lifecycle_reading(
                liquid_refund_recovery_told(
                    trace,
                    LiquidRefundRecoveryPhase::ReadRecords,
                )->Records_0,
                start.kinds,
                start.offering_id,
                None,
            )->Ok_0;
            liquid_refund_recovery_doc(trace[last].0) == JsonView::Object(
                no_members().insert(
                    "liquid_case"@,
                    JsonView::Object(
                        no_members().insert("schema"@, text_doc("openagents.immortal.adversarial-liquid-case.v1"@)).insert("shape"@, text_doc("liquid-submarine"@)).insert("selected_provider"@, text_doc("provider-a"@)).insert("signed_lifecycle_event_ids"@, lifecycle).insert("rails"@, JsonView::Object(no_members().insert("liquid"@, leg_proof_doc("liquid"@, funding_id, funding_output, funding_hex, refund_id, refund_hex)))).insert("provider_effect_operations"@, texts_doc(seq![])).insert("provider_status_anchors"@, texts_doc(seq![])).insert("provider_restart"@, JsonView::Null).insert("liquid_terminal"@, JsonView::Object(no_members().insert("actor"@, text_doc("requester"@)).insert("path"@, text_doc("refund"@)).insert("effect_class"@, text_doc("liquid_spend"@)).insert("confirmed"@, JsonView::Bool(true)))).insert("lightning_terminal"@, JsonView::Object(no_members().insert("actor"@, text_doc("requester"@)).insert("effect_actor"@, JsonView::Null).insert("operation"@, JsonView::Null).insert("status_anchor"@, JsonView::Null).insert("state"@, text_doc("unpaid_final"@)).insert("observation_authority"@, text_doc("requester-cln"@)).insert("payment_hash"@, text_doc(payment_hash)))).insert(
                            "recovery"@,
                            JsonView::Object(
                                no_members().insert("mode"@, text_doc("presigned-refund"@)).insert("fresh_requester_process"@, JsonView::Bool(true)).insert(
                                    "signed_before_requester_contract"@,
                                    JsonView::Bool(true),
                                ).insert(
                                    "signed_before_funding_broadcast"@,
                                    JsonView::Bool(true),
                                ).insert(
                                    "provider_effect_operations"@,
                                    texts_doc(seq![]),
                                ).insert("refund_transaction_id"@, text_doc(refund_id)),
                            ),
                        ),
                    ),
                ),
            )
        }),
{
    law_liquid_refund_recovery_keeps_what_it_was_told(trace, last);
}

/// The refund is broadcast only after the height of the chain was read.
pub proof fn law_liquid_refund_reads_the_height(
    trace: Seq<(LiquidRefundRecoveryRunView, ReplyView)>,
    last: int,
)
    requires
        is_liquid_refund_recovery_trace(trace),
        0 <= last < trace.len(),
        trace[last].0.phase == LiquidRefundRecoveryPhase::BroadcastRefund,
    ensures
        exists|i: int|
            0 <= i < last && (#[trigger] trace[i]).0.phase == LiquidRefundRecoveryPhase::ReadHeight
                && trace[i].1 is Number,
{
    let i = lemma_milestone(
        trace,
        |run: LiquidRefundRecoveryRunView, reply: ReplyView| liquid_refund_recovery_step(run, reply),
        |run: LiquidRefundRecoveryRunView| run.phase.rank(),
        2,
        last,
    );
    assert(trace[i].0.phase == LiquidRefundRecoveryPhase::ReadHeight);
    assert(liquid_refund_recovery_step(trace[i].0, trace[i].1) == Ok::<LiquidRefundRecoveryRunView,
        Seq<char>>(trace[i + 1].0));
}

/// The proof of a Liquid submarine case that was recovered.
pub open spec fn liquid_refund_recovery_doc(run: LiquidRefundRecoveryRunView) -> JsonView {
    JsonView::Object(
        no_members().insert(
            "liquid_case"@,
            JsonView::Object(
                no_members().insert(
                    "schema"@,
                    text_doc("openagents.immortal.adversarial-liquid-case.v1"@),
                ).insert("shape"@, text_doc("liquid-submarine"@)).insert(
                    "selected_provider"@,
                    text_doc("provider-a"@),
                ).insert("signed_lifecycle_event_ids"@, run.lifecycle).insert(
                    "rails"@,
                    JsonView::Object(
                        no_members().insert(
                            "liquid"@,
                            leg_proof_doc(
                                "liquid"@,
                                run.funding_id,
                                run.funding_output,
                                run.funding_hex,
                                run.refund_id,
                                run.refund_hex,
                            ),
                        ),
                    ),
                ).insert("provider_effect_operations"@, texts_doc(seq![])).insert(
                    "provider_status_anchors"@,
                    texts_doc(seq![]),
                ).insert("provider_restart"@, JsonView::Null).insert(
                    "liquid_terminal"@,
                    JsonView::Object(
                        no_members().insert("actor"@, text_doc("requester"@)).insert(
                            "path"@,
                            text_doc("refund"@),
                        ).insert("effect_class"@, text_doc("liquid_spend"@)).insert(
                            "confirmed"@,
                            JsonView::Bool(true),
                        ),
                    ),
                ).insert(
                    "lightning_terminal"@,
                    JsonView::Object(
                        no_members().insert("actor"@, text_doc("requester"@)).insert(
                            "effect_actor"@,
                            JsonView::Null,
                        ).insert("operation"@, JsonView::Null).insert(
                            "status_anchor"@,
                            JsonView::Null,
                        ).insert("state"@, text_doc("unpaid_final"@)).insert(
                            "observation_authority"@,
                            text_doc("requester-cln"@),
                        ).insert("payment_hash"@, text_doc(run.payment_hash)),
                    ),
                ).insert(
                    "recovery"@,
                    JsonView::Object(
                        no_members().insert("mode"@, text_doc("presigned-refund"@)).insert(
                            "fresh_requester_process"@,
                            JsonView::Bool(true),
                        ).insert("signed_before_requester_contract"@, JsonView::Bool(true)).insert(
                            "signed_before_funding_broadcast"@,
                            JsonView::Bool(true),
                        ).insert("provider_effect_operations"@, texts_doc(seq![])).insert(
                            "refund_transaction_id"@,
                            text_doc(run.refund_id),
                        ),
                    ),
                ),
            ),
        ),
    )
}

impl LiquidRefundRecoveryRun {
    fn recovery_document(&self) -> (document: Json)
        ensures
            document@ == liquid_refund_recovery_doc(self@),
    {
        Json::object(
            JsonObject::new().with(
                "liquid_case",
                Json::object(
                    JsonObject::new().with_text(
                        "schema",
                        "openagents.immortal.adversarial-liquid-case.v1",
                    ).with_text("shape", "liquid-submarine").with_text(
                        "selected_provider",
                        "provider-a",
                    ).with("signed_lifecycle_event_ids", self.lifecycle.copy()).with(
                        "rails",
                        Json::object(
                            JsonObject::new().with(
                                "liquid",
                                chain_leg_process_proof(
                                    "liquid",
                                    self.funding_id.as_str(),
                                    self.funding_output,
                                    self.funding_hex.as_str(),
                                    self.refund_id.as_str(),
                                    self.refund_hex.as_str(),
                                ),
                            ),
                        ),
                    ).with("provider_effect_operations", no_texts()).with(
                        "provider_status_anchors",
                        no_texts(),
                    ).with("provider_restart", Json::null()).with(
                        "liquid_terminal",
                        Json::object(
                            JsonObject::new().with_text("actor", "requester").with_text(
                                "path",
                                "refund",
                            ).with_text("effect_class", "liquid_spend").with_bool(
                                "confirmed",
                                true,
                            ),
                        ),
                    ).with(
                        "lightning_terminal",
                        Json::object(
                            JsonObject::new().with_text("actor", "requester").with(
                                "effect_actor",
                                Json::null(),
                            ).with("operation", Json::null()).with(
                                "status_anchor",
                                Json::null(),
                            ).with_text("state", "unpaid_final").with_text(
                                "observation_authority",
                                "requester-cln",
                            ).with_text("payment_hash", self.payment_hash.as_str()),
                        ),
                    ).with(
                        "recovery",
                        Json::object(
                            JsonObject::new().with_text("mode", "presigned-refund").with_bool(
                                "fresh_requester_process",
                                true,
                            ).with_bool("signed_before_requester_contract", true).with_bool(
                                "signed_before_funding_broadcast",
                                true,
                            ).with("provider_effect_operations", no_texts()).with_text(
                                "refund_transaction_id",
                                self.refund_id.as_str(),
                            ),
                        ),
                    ),
                ),
            ),
        )
    }

    /// The proof of a Liquid submarine case that was recovered; nothing before it is over.
    pub fn recovered(&self) -> (document: Option<Json>)
        ensures
            match document {
                Some(document) => self@.phase == LiquidRefundRecoveryPhase::Finished && document@ == liquid_refund_recovery_doc(self@),
                None => self@.phase != LiquidRefundRecoveryPhase::Finished,
            },
    {
        if self.phase == LiquidRefundRecoveryPhase::Finished {
            Some(self.recovery_document())
        } else {
            None
        }
    }
}

/// The phases of the recovery of a Liquid reverse case, in their order.
#[derive(Clone, Copy, Debug, PartialEq, Eq, Structural)]
pub enum LiquidClaimRecoveryPhase {
    RestoreRequest,
    ReadInvoice,
    AwaitAttempt,
    ExchangeFirst,
    SayClaimPending,
    ExchangeClaimPending,
    VerifyRestored,
    LoadSecret,
    ExecuteClaim,
    SayClaimed,
    ExchangeClaimed,
    AwaitClaimPropagated,
    MineClaim,
    AwaitSettlement,
    AwaitPaid,
    AwaitCompleted,
    AwaitPaymentEnd,
    ReadSpender,
    AwaitClose,
    IngestClose,
    ReadFunding,
    ReadClaim,
    ReadRecords,
    RemoveSecret,
    Finished,
}

impl LiquidClaimRecoveryPhase {
    /// The place of the phase in their order.
    pub open spec fn rank(self) -> int {
        match self {
            LiquidClaimRecoveryPhase::RestoreRequest => 0,
            LiquidClaimRecoveryPhase::ReadInvoice => 1,
            LiquidClaimRecoveryPhase::AwaitAttempt => 2,
            LiquidClaimRecoveryPhase::ExchangeFirst => 3,
            LiquidClaimRecoveryPhase::SayClaimPending => 4,
            LiquidClaimRecoveryPhase::ExchangeClaimPending => 5,
            LiquidClaimRecoveryPhase::VerifyRestored => 6,
            LiquidClaimRecoveryPhase::LoadSecret => 7,
            LiquidClaimRecoveryPhase::ExecuteClaim => 8,
            LiquidClaimRecoveryPhase::SayClaimed => 9,
            LiquidClaimRecoveryPhase::ExchangeClaimed => 10,
            LiquidClaimRecoveryPhase::AwaitClaimPropagated => 11,
            LiquidClaimRecoveryPhase::MineClaim => 12,
            LiquidClaimRecoveryPhase::AwaitSettlement => 13,
            LiquidClaimRecoveryPhase::AwaitPaid => 14,
            LiquidClaimRecoveryPhase::AwaitCompleted => 15,
            LiquidClaimRecoveryPhase::AwaitPaymentEnd => 16,
            LiquidClaimRecoveryPhase::ReadSpender => 17,
            LiquidClaimRecoveryPhase::AwaitClose => 18,
            LiquidClaimRecoveryPhase::IngestClose => 19,
            LiquidClaimRecoveryPhase::ReadFunding => 20,
            LiquidClaimRecoveryPhase::ReadClaim => 21,
            LiquidClaimRecoveryPhase::ReadRecords => 22,
            LiquidClaimRecoveryPhase::RemoveSecret => 23,
            LiquidClaimRecoveryPhase::Finished => 24,
        }
    }
}

/// The claim of a Liquid reverse swap whose relays are gone.
pub struct LiquidClaimRecoveryRun {
    pub phase: LiquidClaimRecoveryPhase,
    pub case: DoomsdayCase,
    pub confirmations: u64,
    pub contract: Json,
    pub offering_id: Option<String>,
    pub kinds: RecordKinds,
    pub direct_rounds: u32,
    pub funding_id: String,
    pub funding_output: u32,
    pub timelock: u32,
    pub invoice: String,
    pub payment_hash: String,
    pub claim_id: String,
    pub signed_claim_hex: String,
    pub close_id: String,
    pub funding_hex: String,
    pub claim_hex: String,
    pub lifecycle: Json,
}

/// The claim of a Liquid reverse swap whose relays are gone.
#[verifier::ext_equal]
pub struct LiquidClaimRecoveryRunView {
    pub phase: LiquidClaimRecoveryPhase,
    pub case: DoomsdayCase,
    pub confirmations: u64,
    pub contract: JsonView,
    pub offering_id: Option<Seq<char>>,
    pub kinds: RecordKinds,
    pub direct_rounds: u32,
    pub funding_id: Seq<char>,
    pub funding_output: u32,
    pub timelock: u32,
    pub invoice: Seq<char>,
    pub payment_hash: Seq<char>,
    pub claim_id: Seq<char>,
    pub signed_claim_hex: Seq<char>,
    pub close_id: Seq<char>,
    pub funding_hex: Seq<char>,
    pub claim_hex: Seq<char>,
    pub lifecycle: JsonView,
}

impl View for LiquidClaimRecoveryRun {
    type V = LiquidClaimRecoveryRunView;

    open spec fn view(&self) -> LiquidClaimRecoveryRunView {
        LiquidClaimRecoveryRunView {
            phase: self.phase,
            case: self.case,
            confirmations: self.confirmations,
            contract: self.contract@,
            offering_id: maybe(self.offering_id),
            kinds: self.kinds,
            direct_rounds: self.direct_rounds,
            funding_id: self.funding_id@,
            funding_output: self.funding_output,
            timelock: self.timelock,
            invoice: self.invoice@,
            payment_hash: self.payment_hash@,
            claim_id: self.claim_id@,
            signed_claim_hex: self.signed_claim_hex@,
            close_id: self.close_id@,
            funding_hex: self.funding_hex@,
            claim_hex: self.claim_hex@,
            lifecycle: self.lifecycle@,
        }
    }
}

/// What the recovery of a Liquid reverse case asks for next.
pub open spec fn liquid_claim_recovery_action(run: LiquidClaimRecoveryRunView) -> ActionView {
    match run.phase {
        LiquidClaimRecoveryPhase::RestoreRequest => ActionView::Perform(
            Task::RestoreLiquidRequest,
            seq![],
        ),
        LiquidClaimRecoveryPhase::ReadInvoice => ActionView::Perform(
            Task::ReadFundingInvoice,
            seq![],
        ),
        LiquidClaimRecoveryPhase::AwaitAttempt => ActionView::Perform(
            Task::AwaitPaymentAttempt,
            seq![run.invoice, run.payment_hash],
        ),
        LiquidClaimRecoveryPhase::ExchangeFirst => ActionView::Perform(
            Task::ExchangeDirect,
            seq![],
        ),
        LiquidClaimRecoveryPhase::SayClaimPending => ActionView::SayDirect(
            "requester_claim_pending"@,
            no_members(),
        ),
        LiquidClaimRecoveryPhase::ExchangeClaimPending => ActionView::Perform(
            Task::ExchangeDirect,
            seq![],
        ),
        LiquidClaimRecoveryPhase::VerifyRestored => ActionView::Perform(
            Task::VerifyRestored,
            seq![],
        ),
        LiquidClaimRecoveryPhase::LoadSecret => ActionView::Perform(
            Task::LoadSecret,
            seq![run.case.journey_label()],
        ),
        LiquidClaimRecoveryPhase::ExecuteClaim => ActionView::Perform(
            Task::ExecuteLiquidClaim,
            seq!["destination"@, run.case.journey_label(), "doomsday-liquid-reverse-claim"@],
        ),
        LiquidClaimRecoveryPhase::SayClaimed => ActionView::SayDirect(
            "requester_claimed"@,
            no_members().insert("transaction_id"@, text_doc(run.claim_id)),
        ),
        LiquidClaimRecoveryPhase::ExchangeClaimed => ActionView::Perform(
            Task::ExchangeDirect,
            seq![],
        ),
        LiquidClaimRecoveryPhase::AwaitClaimPropagated => ActionView::AwaitTransaction(
            "liquid"@,
            run.claim_id,
            "doomsday-liquid-reverse-claim"@,
        ),
        LiquidClaimRecoveryPhase::MineClaim => ActionView::Mine(
            "liquid"@,
            run.confirmations,
            "doomsday-liquid-reverse-claim"@,
        ),
        LiquidClaimRecoveryPhase::AwaitSettlement => ActionView::AwaitDirectState(
            "lightning_settlement_pending"@,
        ),
        LiquidClaimRecoveryPhase::AwaitPaid => ActionView::AwaitDirectState("lightning_paid"@),
        LiquidClaimRecoveryPhase::AwaitCompleted => ActionView::AwaitDirectState("completed"@),
        LiquidClaimRecoveryPhase::AwaitPaymentEnd => ActionView::Perform(
            Task::AwaitPaymentEnd,
            seq![run.invoice, run.payment_hash],
        ),
        LiquidClaimRecoveryPhase::ReadSpender => ActionView::Perform(
            Task::ReadSpender,
            seq![
                "doomsday-liquid-reverse-spend"@,
                run.funding_id,
                decimal(run.funding_output as nat),
            ],
        ),
        LiquidClaimRecoveryPhase::AwaitClose => ActionView::Perform(Task::AwaitDirectClose, seq![]),
        LiquidClaimRecoveryPhase::IngestClose => ActionView::AwaitClose(
            CloseCheckView {
                outcome: "completed"@,
                bitcoin: None,
                liquid: Some(run.claim_id),
                lightning: Some(
                    LightningView::Outgoing(run.invoice, run.payment_hash, "complete"@),
                ),
            },
        ),
        LiquidClaimRecoveryPhase::ReadFunding => ActionView::ReadTransaction(
            "liquid"@,
            run.funding_id,
            "doomsday-liquid-reverse-funding-proof"@,
        ),
        LiquidClaimRecoveryPhase::ReadClaim => ActionView::ReadTransaction(
            "liquid"@,
            run.claim_id,
            "doomsday-liquid-reverse-claim-proof"@,
        ),
        LiquidClaimRecoveryPhase::ReadRecords => ActionView::Perform(Task::ReadRecords, seq![]),
        LiquidClaimRecoveryPhase::RemoveSecret => ActionView::Perform(
            Task::RemoveSecret,
            seq![run.case.journey_label()],
        ),
        LiquidClaimRecoveryPhase::Finished => ActionView::Finish,
    }
}

/// Where a reply takes the recovery of a Liquid reverse case.
pub open spec fn liquid_claim_recovery_step(
    run: LiquidClaimRecoveryRunView,
    reply: ReplyView,
) -> Result<
    LiquidClaimRecoveryRunView,
    Seq<char>,
> {
    match (run.phase, reply) {
        (LiquidClaimRecoveryPhase::RestoreRequest, ReplyView::LiquidRequest { swap_type, purpose, exit }) => {
            if swap_type != "reverse"@
                || purpose != "counterparty_lock"@
                || !is_wallet_claim(exit)
            {
                Err("restored Liquid reverse claim has another shape"@)
            } else {
                Ok(
                    LiquidClaimRecoveryRunView {
                        phase: LiquidClaimRecoveryPhase::ReadInvoice,
                        funding_id: exit.funding_id,
                        funding_output: exit.funding_output,
                        timelock: exit.timelock,
                        ..run
                    },
                )
            }
        },
        (LiquidClaimRecoveryPhase::ReadInvoice, ReplyView::Texts(texts)) => {
            if texts.len() != 1 {
                Err(wrong_reply())
            } else {
                match member_text(run.contract, "payment_hash"@) {
                    None => Err("restored Liquid reverse has no payment hash"@),
                    Some(hash) => Ok(
                        LiquidClaimRecoveryRunView {
                            phase: LiquidClaimRecoveryPhase::AwaitAttempt,
                            invoice: texts[0],
                            payment_hash: hash,
                            ..run
                        },
                    ),
                }
            }
        },
        (LiquidClaimRecoveryPhase::ReadInvoice, ReplyView::Done) => Err(
            "restored Liquid reverse authorized another action"@,
        ),
        (LiquidClaimRecoveryPhase::AwaitAttempt, ReplyView::Texts(texts)) => {
            if texts.len() != 1 {
                Err(wrong_reply())
            } else if texts[0] != "pending"@ {
                Err("Liquid reverse payment was not held before recovery"@)
            } else {
                Ok(
                    LiquidClaimRecoveryRunView {
                        phase: LiquidClaimRecoveryPhase::ExchangeFirst,
                        ..run
                    },
                )
            }
        },
        (LiquidClaimRecoveryPhase::ExchangeFirst, ReplyView::Done) => Ok(
            LiquidClaimRecoveryRunView {
                phase: LiquidClaimRecoveryPhase::SayClaimPending,
                direct_rounds: more_rounds(run.direct_rounds, 1),
                ..run
            },
        ),
        (LiquidClaimRecoveryPhase::SayClaimPending, ReplyView::Record { .. }) => Ok(
            LiquidClaimRecoveryRunView {
                phase: LiquidClaimRecoveryPhase::ExchangeClaimPending,
                ..run
            },
        ),
        (LiquidClaimRecoveryPhase::ExchangeClaimPending, ReplyView::Done) => Ok(
            LiquidClaimRecoveryRunView {
                phase: LiquidClaimRecoveryPhase::VerifyRestored,
                direct_rounds: more_rounds(run.direct_rounds, 1),
                ..run
            },
        ),
        (LiquidClaimRecoveryPhase::VerifyRestored, ReplyView::Done) => Ok(
            LiquidClaimRecoveryRunView { phase: LiquidClaimRecoveryPhase::LoadSecret, ..run },
        ),
        (LiquidClaimRecoveryPhase::LoadSecret, ReplyView::Texts(texts)) => Ok(
            LiquidClaimRecoveryRunView { phase: LiquidClaimRecoveryPhase::ExecuteClaim, ..run },
        ),
        (LiquidClaimRecoveryPhase::ExecuteClaim, ReplyView::Texts(texts)) => {
            if texts.len() != 2 {
                Err(wrong_reply())
            } else {
                Ok(
                    LiquidClaimRecoveryRunView {
                        phase: LiquidClaimRecoveryPhase::SayClaimed,
                        claim_id: texts[0],
                        signed_claim_hex: texts[1],
                        ..run
                    },
                )
            }
        },
        (LiquidClaimRecoveryPhase::SayClaimed, ReplyView::Record { .. }) => Ok(
            LiquidClaimRecoveryRunView { phase: LiquidClaimRecoveryPhase::ExchangeClaimed, ..run },
        ),
        (LiquidClaimRecoveryPhase::ExchangeClaimed, ReplyView::Done) => Ok(
            LiquidClaimRecoveryRunView {
                phase: LiquidClaimRecoveryPhase::AwaitClaimPropagated,
                direct_rounds: more_rounds(run.direct_rounds, 1),
                ..run
            },
        ),
        (LiquidClaimRecoveryPhase::AwaitClaimPropagated, ReplyView::Done) => Ok(
            LiquidClaimRecoveryRunView { phase: LiquidClaimRecoveryPhase::MineClaim, ..run },
        ),
        (LiquidClaimRecoveryPhase::MineClaim, ReplyView::Done) => Ok(
            LiquidClaimRecoveryRunView { phase: LiquidClaimRecoveryPhase::AwaitSettlement, ..run },
        ),
        (LiquidClaimRecoveryPhase::AwaitSettlement, ReplyView::Direct { id, content, rounds, .. }) => Ok(
            LiquidClaimRecoveryRunView {
                phase: LiquidClaimRecoveryPhase::AwaitPaid,
                direct_rounds: more_rounds(run.direct_rounds, rounds),
                ..run
            },
        ),
        (LiquidClaimRecoveryPhase::AwaitPaid, ReplyView::Direct { id, content, rounds, .. }) => Ok(
            LiquidClaimRecoveryRunView {
                phase: LiquidClaimRecoveryPhase::AwaitCompleted,
                direct_rounds: more_rounds(run.direct_rounds, rounds),
                ..run
            },
        ),
        (LiquidClaimRecoveryPhase::AwaitCompleted, ReplyView::Direct { id, content, rounds, .. }) => Ok(
            LiquidClaimRecoveryRunView {
                phase: LiquidClaimRecoveryPhase::AwaitPaymentEnd,
                direct_rounds: more_rounds(run.direct_rounds, rounds),
                ..run
            },
        ),
        (LiquidClaimRecoveryPhase::AwaitPaymentEnd, ReplyView::Texts(texts)) => {
            if texts.len() != 1 {
                Err(wrong_reply())
            } else if texts[0] != "complete"@ {
                Err("Liquid reverse hold invoice did not settle"@)
            } else {
                Ok(
                    LiquidClaimRecoveryRunView {
                        phase: LiquidClaimRecoveryPhase::ReadSpender,
                        ..run
                    },
                )
            }
        },
        (LiquidClaimRecoveryPhase::ReadSpender, ReplyView::Texts(texts)) => {
            if texts.len() != 1 {
                Err(wrong_reply())
            } else if texts[0] != run.claim_id {
                Err("Liquid reverse funding outpoint has another terminal spend"@)
            } else {
                Ok(
                    LiquidClaimRecoveryRunView {
                        phase: LiquidClaimRecoveryPhase::AwaitClose,
                        ..run
                    },
                )
            }
        },
        (LiquidClaimRecoveryPhase::ReadSpender, ReplyView::Done) => Err(
            "Liquid reverse funding outpoint has another terminal spend"@,
        ),
        (LiquidClaimRecoveryPhase::AwaitClose, ReplyView::Number(value)) => Ok(
            LiquidClaimRecoveryRunView {
                phase: LiquidClaimRecoveryPhase::IngestClose,
                direct_rounds: more_rounds(run.direct_rounds, rounds_of(value)),
                ..run
            },
        ),
        (LiquidClaimRecoveryPhase::IngestClose, ReplyView::Record { id, pubkey, tags, content, .. }) => Ok(
            LiquidClaimRecoveryRunView {
                phase: LiquidClaimRecoveryPhase::ReadFunding,
                close_id: id,
                ..run
            },
        ),
        (LiquidClaimRecoveryPhase::ReadFunding, ReplyView::Texts(texts)) => {
            if texts.len() != 1 {
                Err(wrong_reply())
            } else {
                Ok(
                    LiquidClaimRecoveryRunView {
                        phase: LiquidClaimRecoveryPhase::ReadClaim,
                        funding_hex: texts[0],
                        ..run
                    },
                )
            }
        },
        (LiquidClaimRecoveryPhase::ReadClaim, ReplyView::Texts(texts)) => {
            if texts.len() != 1 {
                Err(wrong_reply())
            } else {
                Ok(
                    LiquidClaimRecoveryRunView {
                        phase: LiquidClaimRecoveryPhase::ReadRecords,
                        claim_hex: texts[0],
                        ..run
                    },
                )
            }
        },
        (LiquidClaimRecoveryPhase::ReadRecords, ReplyView::Records(records)) => match recovered_lifecycle_reading(
            records,
            run.kinds,
            run.offering_id,
            Some(run.close_id),
        ) {
            Err(message) => Err(message),
            Ok(ids) => Ok(
                LiquidClaimRecoveryRunView {
                    phase: LiquidClaimRecoveryPhase::RemoveSecret,
                    lifecycle: ids,
                    ..run
                },
            ),
        },
        (LiquidClaimRecoveryPhase::RemoveSecret, ReplyView::Done) => Ok(
            LiquidClaimRecoveryRunView { phase: LiquidClaimRecoveryPhase::Finished, ..run },
        ),
        _ => Err(wrong_reply()),
    }
}

impl LiquidClaimRecoveryRun {
    /// The recovery of a Liquid reverse case before its first action.
    pub fn new(
        case: DoomsdayCase,
        confirmations: u64,
        contract: &Json,
        offering_id: Option<String>,
        kinds: RecordKinds,
    ) -> (run: LiquidClaimRecoveryRun)
        ensures
            run@.phase == LiquidClaimRecoveryPhase::RestoreRequest,
            run@.case == case,
            run@.confirmations == confirmations,
            run@.contract == contract@,
            run@.offering_id == maybe(offering_id),
            run@.kinds == kinds,
            run@.direct_rounds == 0,
            run@.funding_id == Seq::<char>::empty(),
            run@.funding_output == 0,
            run@.timelock == 0,
            run@.invoice == Seq::<char>::empty(),
            run@.payment_hash == Seq::<char>::empty(),
            run@.claim_id == Seq::<char>::empty(),
            run@.signed_claim_hex == Seq::<char>::empty(),
            run@.close_id == Seq::<char>::empty(),
            run@.funding_hex == Seq::<char>::empty(),
            run@.claim_hex == Seq::<char>::empty(),
            run@.lifecycle == JsonView::Null,
    {
        LiquidClaimRecoveryRun {
            phase: LiquidClaimRecoveryPhase::RestoreRequest,
            case,
            confirmations,
            contract: contract.copy(),
            offering_id,
            kinds,
            direct_rounds: 0,
            funding_id: String::new(),
            funding_output: 0,
            timelock: 0,
            invoice: String::new(),
            payment_hash: String::new(),
            claim_id: String::new(),
            signed_claim_hex: String::new(),
            close_id: String::new(),
            funding_hex: String::new(),
            claim_hex: String::new(),
            lifecycle: Json::null(),
        }
    }

    /// What the journey asks for next.
    pub fn action(&self) -> (action: Action)
        ensures
            action@ == liquid_claim_recovery_action(self@),
    {
        match self.phase {
            LiquidClaimRecoveryPhase::RestoreRequest => perform(Task::RestoreLiquidRequest),
            LiquidClaimRecoveryPhase::ReadInvoice => perform(Task::ReadFundingInvoice),
            LiquidClaimRecoveryPhase::AwaitAttempt => perform_with_two(
                Task::AwaitPaymentAttempt,
                self.invoice.as_str(),
                self.payment_hash.as_str(),
            ),
            LiquidClaimRecoveryPhase::ExchangeFirst => perform(Task::ExchangeDirect),
            LiquidClaimRecoveryPhase::SayClaimPending => Action::SayDirect(
                "requester_claim_pending",
                JsonObject::new(),
            ),
            LiquidClaimRecoveryPhase::ExchangeClaimPending => perform(Task::ExchangeDirect),
            LiquidClaimRecoveryPhase::VerifyRestored => perform(Task::VerifyRestored),
            LiquidClaimRecoveryPhase::LoadSecret => perform_with(
                Task::LoadSecret,
                self.case.journey_name(),
            ),
            LiquidClaimRecoveryPhase::ExecuteClaim => perform_with_three(
                Task::ExecuteLiquidClaim,
                "destination",
                self.case.journey_name(),
                "doomsday-liquid-reverse-claim",
            ),
            LiquidClaimRecoveryPhase::SayClaimed => Action::SayDirect(
                "requester_claimed",
                JsonObject::new().with_text("transaction_id", self.claim_id.as_str()),
            ),
            LiquidClaimRecoveryPhase::ExchangeClaimed => perform(Task::ExchangeDirect),
            LiquidClaimRecoveryPhase::AwaitClaimPropagated => Action::AwaitTransaction(
                "liquid".to_owned(),
                self.claim_id.clone(),
                "doomsday-liquid-reverse-claim",
            ),
            LiquidClaimRecoveryPhase::MineClaim => Action::Mine(
                "liquid".to_owned(),
                self.confirmations,
                "doomsday-liquid-reverse-claim",
            ),
            LiquidClaimRecoveryPhase::AwaitSettlement => Action::AwaitDirectState(
                "lightning_settlement_pending",
            ),
            LiquidClaimRecoveryPhase::AwaitPaid => Action::AwaitDirectState("lightning_paid"),
            LiquidClaimRecoveryPhase::AwaitCompleted => Action::AwaitDirectState("completed"),
            LiquidClaimRecoveryPhase::AwaitPaymentEnd => perform_with_two(
                Task::AwaitPaymentEnd,
                self.invoice.as_str(),
                self.payment_hash.as_str(),
            ),
            LiquidClaimRecoveryPhase::ReadSpender => perform_with_three(
                Task::ReadSpender,
                "doomsday-liquid-reverse-spend",
                self.funding_id.as_str(),
                decimal_text(self.funding_output as u64).as_str(),
            ),
            LiquidClaimRecoveryPhase::AwaitClose => perform(Task::AwaitDirectClose),
            LiquidClaimRecoveryPhase::IngestClose => Action::AwaitClose(
                CloseCheck {
                    outcome: "completed",
                    bitcoin: None,
                    liquid: Some(self.claim_id.clone()),
                    lightning: Some(
                        LightningTerminalCheck::OutgoingPayment {
                            invoice: self.invoice.clone(),
                            payment_hash: self.payment_hash.clone(),
                            expected_status: "complete".to_owned(),
                        },
                    ),
                },
            ),
            LiquidClaimRecoveryPhase::ReadFunding => Action::ReadTransaction(
                "liquid".to_owned(),
                self.funding_id.clone(),
                "doomsday-liquid-reverse-funding-proof",
            ),
            LiquidClaimRecoveryPhase::ReadClaim => Action::ReadTransaction(
                "liquid".to_owned(),
                self.claim_id.clone(),
                "doomsday-liquid-reverse-claim-proof",
            ),
            LiquidClaimRecoveryPhase::ReadRecords => perform(Task::ReadRecords),
            LiquidClaimRecoveryPhase::RemoveSecret => perform_with(
                Task::RemoveSecret,
                self.case.journey_name(),
            ),
            LiquidClaimRecoveryPhase::Finished => Action::Finish,
        }
    }

    /// Takes a reply: the journey goes on to its next phase, or ends with a message.
    #[verifier::rlimit(90)]
    pub fn advance(&mut self, reply: Reply) -> (moved: Result<(), String>)
        ensures
            match moved {
                Ok(_) => liquid_claim_recovery_step(
                    old(self)@,
                    reply@,
                ) == Ok::<LiquidClaimRecoveryRunView, Seq<char>>(final(self)@),
                Err(message) => {
                    &&& liquid_claim_recovery_step(
                        old(self)@,
                        reply@,
                    ) == Err::<LiquidClaimRecoveryRunView, Seq<char>>(message@)
                    &&& final(self)@ == old(self)@
                },
            },
    {
        match (self.phase, reply) {
            (LiquidClaimRecoveryPhase::RestoreRequest, Reply::LiquidRequest { swap_type, purpose, exit }) => {
                if !same_text(swap_type.as_str(), "reverse")
                    || !same_text(purpose.as_str(), "counterparty_lock")
                    || !exit.is_wallet_claim()
                {
                    return Err("restored Liquid reverse claim has another shape".to_owned());
                }
                self.funding_id = exit.funding_id;
                self.funding_output = exit.funding_output;
                self.timelock = exit.timelock;
                self.phase = LiquidClaimRecoveryPhase::ReadInvoice;
                Ok(())
            },
            (LiquidClaimRecoveryPhase::ReadInvoice, Reply::Texts(texts)) => {
                if texts.len() != 1 {
                    return Err(wrong_reply_text());
                }
                let hash: String = match self.contract.text_at("payment_hash") {
                    Some(hash) => hash.to_owned(),
                    None => {
                        return Err("restored Liquid reverse has no payment hash".to_owned());
                    },
                };
                self.invoice = texts[0].clone();
                self.payment_hash = hash;
                self.phase = LiquidClaimRecoveryPhase::AwaitAttempt;
                Ok(())
            },
            (LiquidClaimRecoveryPhase::ReadInvoice, Reply::Done) => {
                Err("restored Liquid reverse authorized another action".to_owned())
            },
            (LiquidClaimRecoveryPhase::AwaitAttempt, Reply::Texts(texts)) => {
                if texts.len() != 1 {
                    return Err(wrong_reply_text());
                }
                if !same_text(texts[0].as_str(), "pending") {
                    return Err("Liquid reverse payment was not held before recovery".to_owned());
                }
                self.phase = LiquidClaimRecoveryPhase::ExchangeFirst;
                Ok(())
            },
            (LiquidClaimRecoveryPhase::ExchangeFirst, Reply::Done) => {
                self.direct_rounds = count_rounds(self.direct_rounds, 1);
                self.phase = LiquidClaimRecoveryPhase::SayClaimPending;
                Ok(())
            },
            (LiquidClaimRecoveryPhase::SayClaimPending, Reply::Record(_)) => {
                self.phase = LiquidClaimRecoveryPhase::ExchangeClaimPending;
                Ok(())
            },
            (LiquidClaimRecoveryPhase::ExchangeClaimPending, Reply::Done) => {
                self.direct_rounds = count_rounds(self.direct_rounds, 1);
                self.phase = LiquidClaimRecoveryPhase::VerifyRestored;
                Ok(())
            },
            (LiquidClaimRecoveryPhase::VerifyRestored, Reply::Done) => {
                self.phase = LiquidClaimRecoveryPhase::LoadSecret;
                Ok(())
            },
            (LiquidClaimRecoveryPhase::LoadSecret, Reply::Texts(_)) => {
                self.phase = LiquidClaimRecoveryPhase::ExecuteClaim;
                Ok(())
            },
            (LiquidClaimRecoveryPhase::ExecuteClaim, Reply::Texts(texts)) => {
                if texts.len() != 2 {
                    return Err(wrong_reply_text());
                }
                self.claim_id = texts[0].clone();
                self.signed_claim_hex = texts[1].clone();
                self.phase = LiquidClaimRecoveryPhase::SayClaimed;
                Ok(())
            },
            (LiquidClaimRecoveryPhase::SayClaimed, Reply::Record(_)) => {
                self.phase = LiquidClaimRecoveryPhase::ExchangeClaimed;
                Ok(())
            },
            (LiquidClaimRecoveryPhase::ExchangeClaimed, Reply::Done) => {
                self.direct_rounds = count_rounds(self.direct_rounds, 1);
                self.phase = LiquidClaimRecoveryPhase::AwaitClaimPropagated;
                Ok(())
            },
            (LiquidClaimRecoveryPhase::AwaitClaimPropagated, Reply::Done) => {
                self.phase = LiquidClaimRecoveryPhase::MineClaim;
                Ok(())
            },
            (LiquidClaimRecoveryPhase::MineClaim, Reply::Done) => {
                self.phase = LiquidClaimRecoveryPhase::AwaitSettlement;
                Ok(())
            },
            (LiquidClaimRecoveryPhase::AwaitSettlement, Reply::Direct(event, rounds)) => {
                self.direct_rounds = count_rounds(self.direct_rounds, rounds);
                self.phase = LiquidClaimRecoveryPhase::AwaitPaid;
                Ok(())
            },
            (LiquidClaimRecoveryPhase::AwaitPaid, Reply::Direct(event, rounds)) => {
                self.direct_rounds = count_rounds(self.direct_rounds, rounds);
                self.phase = LiquidClaimRecoveryPhase::AwaitCompleted;
                Ok(())
            },
            (LiquidClaimRecoveryPhase::AwaitCompleted, Reply::Direct(event, rounds)) => {
                self.direct_rounds = count_rounds(self.direct_rounds, rounds);
                self.phase = LiquidClaimRecoveryPhase::AwaitPaymentEnd;
                Ok(())
            },
            (LiquidClaimRecoveryPhase::AwaitPaymentEnd, Reply::Texts(texts)) => {
                if texts.len() != 1 {
                    return Err(wrong_reply_text());
                }
                if !same_text(texts[0].as_str(), "complete") {
                    return Err("Liquid reverse hold invoice did not settle".to_owned());
                }
                self.phase = LiquidClaimRecoveryPhase::ReadSpender;
                Ok(())
            },
            (LiquidClaimRecoveryPhase::ReadSpender, Reply::Texts(texts)) => {
                if texts.len() != 1 {
                    return Err(wrong_reply_text());
                }
                if !same_text(texts[0].as_str(), self.claim_id.as_str()) {
                    return Err(
                        "Liquid reverse funding outpoint has another terminal spend".to_owned(),
                    );
                }
                self.phase = LiquidClaimRecoveryPhase::AwaitClose;
                Ok(())
            },
            (LiquidClaimRecoveryPhase::ReadSpender, Reply::Done) => {
                Err("Liquid reverse funding outpoint has another terminal spend".to_owned())
            },
            (LiquidClaimRecoveryPhase::AwaitClose, Reply::Number(value)) => {
                self.direct_rounds = count_rounds(self.direct_rounds, rounds_in(value));
                self.phase = LiquidClaimRecoveryPhase::IngestClose;
                Ok(())
            },
            (LiquidClaimRecoveryPhase::IngestClose, Reply::Record(event)) => {
                self.close_id = event.id;
                self.phase = LiquidClaimRecoveryPhase::ReadFunding;
                Ok(())
            },
            (LiquidClaimRecoveryPhase::ReadFunding, Reply::Texts(texts)) => {
                if texts.len() != 1 {
                    return Err(wrong_reply_text());
                }
                self.funding_hex = texts[0].clone();
                self.phase = LiquidClaimRecoveryPhase::ReadClaim;
                Ok(())
            },
            (LiquidClaimRecoveryPhase::ReadClaim, Reply::Texts(texts)) => {
                if texts.len() != 1 {
                    return Err(wrong_reply_text());
                }
                self.claim_hex = texts[0].clone();
                self.phase = LiquidClaimRecoveryPhase::ReadRecords;
                Ok(())
            },
            (LiquidClaimRecoveryPhase::ReadRecords, Reply::Records(records)) => {
                let ids: Json = recovered_lifecycle(
                    &records,
                    self.kinds,
                    &self.offering_id,
                    Some(self.close_id.as_str()),
                )?;
                self.lifecycle = ids;
                self.phase = LiquidClaimRecoveryPhase::RemoveSecret;
                Ok(())
            },
            (LiquidClaimRecoveryPhase::RemoveSecret, Reply::Done) => {
                self.phase = LiquidClaimRecoveryPhase::Finished;
                Ok(())
            },
            _ => Err(wrong_reply_text()),
        }
    }
}

/// Whether each entry of a trace leads to the one after it, from the first phase on.
pub open spec fn is_liquid_claim_recovery_trace(
    trace: Seq<(LiquidClaimRecoveryRunView, ReplyView)>,
) -> bool {
    &&& trace.len() > 0
    &&& trace[0].0.phase == LiquidClaimRecoveryPhase::RestoreRequest
    &&& forall|i: int|
        0 <= i < trace.len() - 1 ==> liquid_claim_recovery_step(
            (#[trigger] trace[i]).0,
            trace[i].1,
        ) == Ok::<
            LiquidClaimRecoveryRunView,
            Seq<char>,
        >(trace[i + 1].0)
}

/// Each reply takes the recovery of a Liquid reverse case forward, never back and never in place.
#[verifier::rlimit(90)]
pub proof fn law_liquid_claim_recovery_moves_forward(
    run: LiquidClaimRecoveryRunView,
    reply: ReplyView,
)
    requires
        liquid_claim_recovery_step(run, reply) is Ok,
    ensures
        run.phase.rank() < liquid_claim_recovery_step(run, reply)->Ok_0.phase.rank(),
{
}

/// Which replies take the recovery of a Liquid reverse case on, and to which phase: in each phase
/// exactly the replies that pass every check of that phase, and no others.
pub proof fn law_liquid_claim_recovery_goes_on_only_when_answered(
    run: LiquidClaimRecoveryRunView,
    reply: ReplyView,
)
    ensures
        ({
            let next = liquid_claim_recovery_step(run, reply);
            match run.phase {
                LiquidClaimRecoveryPhase::RestoreRequest => {
                    &&& next is Ok <==> {
                        &&& reply is LiquidRequest
                        &&& reply->LiquidRequest_swap_type == "reverse"@
                        &&& reply->LiquidRequest_purpose == "counterparty_lock"@
                        &&& is_wallet_claim(reply->LiquidRequest_exit)
                    }
                    &&& next is Ok ==> next->Ok_0.phase == LiquidClaimRecoveryPhase::ReadInvoice
                },
                LiquidClaimRecoveryPhase::ReadInvoice => {
                    &&& next is Ok <==> {
                        &&& reply is Texts
                        &&& reply->Texts_0.len() == 1
                        &&& member_text(run.contract, "payment_hash"@) is Some
                    }
                    &&& next is Ok ==> next->Ok_0.phase == LiquidClaimRecoveryPhase::AwaitAttempt
                },
                LiquidClaimRecoveryPhase::AwaitAttempt => {
                    &&& next is Ok <==> {
                        &&& reply is Texts
                        &&& reply->Texts_0.len() == 1
                        &&& reply->Texts_0[0] == "pending"@
                    }
                    &&& next is Ok ==> next->Ok_0.phase == LiquidClaimRecoveryPhase::ExchangeFirst
                },
                LiquidClaimRecoveryPhase::ExchangeFirst => {
                    &&& next is Ok <==> reply is Done
                    &&& next is Ok ==> next->Ok_0.phase == LiquidClaimRecoveryPhase::SayClaimPending
                },
                LiquidClaimRecoveryPhase::SayClaimPending => {
                    &&& next is Ok <==> reply is Record
                    &&& next is Ok ==> next->Ok_0.phase == LiquidClaimRecoveryPhase::ExchangeClaimPending
                },
                LiquidClaimRecoveryPhase::ExchangeClaimPending => {
                    &&& next is Ok <==> reply is Done
                    &&& next is Ok ==> next->Ok_0.phase == LiquidClaimRecoveryPhase::VerifyRestored
                },
                LiquidClaimRecoveryPhase::VerifyRestored => {
                    &&& next is Ok <==> reply is Done
                    &&& next is Ok ==> next->Ok_0.phase == LiquidClaimRecoveryPhase::LoadSecret
                },
                LiquidClaimRecoveryPhase::LoadSecret => {
                    &&& next is Ok <==> reply is Texts
                    &&& next is Ok ==> next->Ok_0.phase == LiquidClaimRecoveryPhase::ExecuteClaim
                },
                LiquidClaimRecoveryPhase::ExecuteClaim => {
                    &&& next is Ok <==> {
                        &&& reply is Texts
                        &&& reply->Texts_0.len() == 2
                    }
                    &&& next is Ok ==> next->Ok_0.phase == LiquidClaimRecoveryPhase::SayClaimed
                },
                LiquidClaimRecoveryPhase::SayClaimed => {
                    &&& next is Ok <==> reply is Record
                    &&& next is Ok ==> next->Ok_0.phase == LiquidClaimRecoveryPhase::ExchangeClaimed
                },
                LiquidClaimRecoveryPhase::ExchangeClaimed => {
                    &&& next is Ok <==> reply is Done
                    &&& next is Ok ==> next->Ok_0.phase == LiquidClaimRecoveryPhase::AwaitClaimPropagated
                },
                LiquidClaimRecoveryPhase::AwaitClaimPropagated => {
                    &&& next is Ok <==> reply is Done
                    &&& next is Ok ==> next->Ok_0.phase == LiquidClaimRecoveryPhase::MineClaim
                },
                LiquidClaimRecoveryPhase::MineClaim => {
                    &&& next is Ok <==> reply is Done
                    &&& next is Ok ==> next->Ok_0.phase == LiquidClaimRecoveryPhase::AwaitSettlement
                },
                LiquidClaimRecoveryPhase::AwaitSettlement => {
                    &&& next is Ok <==> reply is Direct
                    &&& next is Ok ==> next->Ok_0.phase == LiquidClaimRecoveryPhase::AwaitPaid
                },
                LiquidClaimRecoveryPhase::AwaitPaid => {
                    &&& next is Ok <==> reply is Direct
                    &&& next is Ok ==> next->Ok_0.phase == LiquidClaimRecoveryPhase::AwaitCompleted
                },
                LiquidClaimRecoveryPhase::AwaitCompleted => {
                    &&& next is Ok <==> reply is Direct
                    &&& next is Ok ==> next->Ok_0.phase == LiquidClaimRecoveryPhase::AwaitPaymentEnd
                },
                LiquidClaimRecoveryPhase::AwaitPaymentEnd => {
                    &&& next is Ok <==> {
                        &&& reply is Texts
                        &&& reply->Texts_0.len() == 1
                        &&& reply->Texts_0[0] == "complete"@
                    }
                    &&& next is Ok ==> next->Ok_0.phase == LiquidClaimRecoveryPhase::ReadSpender
                },
                LiquidClaimRecoveryPhase::ReadSpender => {
                    &&& next is Ok <==> {
                        &&& reply is Texts
                        &&& reply->Texts_0.len() == 1
                        &&& reply->Texts_0[0] == run.claim_id
                    }
                    &&& next is Ok ==> next->Ok_0.phase == LiquidClaimRecoveryPhase::AwaitClose
                },
                LiquidClaimRecoveryPhase::AwaitClose => {
                    &&& next is Ok <==> reply is Number
                    &&& next is Ok ==> next->Ok_0.phase == LiquidClaimRecoveryPhase::IngestClose
                },
                LiquidClaimRecoveryPhase::IngestClose => {
                    &&& next is Ok <==> reply is Record
                    &&& next is Ok ==> next->Ok_0.phase == LiquidClaimRecoveryPhase::ReadFunding
                },
                LiquidClaimRecoveryPhase::ReadFunding => {
                    &&& next is Ok <==> {
                        &&& reply is Texts
                        &&& reply->Texts_0.len() == 1
                    }
                    &&& next is Ok ==> next->Ok_0.phase == LiquidClaimRecoveryPhase::ReadClaim
                },
                LiquidClaimRecoveryPhase::ReadClaim => {
                    &&& next is Ok <==> {
                        &&& reply is Texts
                        &&& reply->Texts_0.len() == 1
                    }
                    &&& next is Ok ==> next->Ok_0.phase == LiquidClaimRecoveryPhase::ReadRecords
                },
                LiquidClaimRecoveryPhase::ReadRecords => {
                    &&& next is Ok <==> {
                        &&& reply is Records
                        &&& recovered_lifecycle_reading(
                            reply->Records_0,
                            run.kinds,
                            run.offering_id,
                            Some(run.close_id),
                        ) is Ok
                    }
                    &&& next is Ok ==> next->Ok_0.phase == LiquidClaimRecoveryPhase::RemoveSecret
                },
                LiquidClaimRecoveryPhase::RemoveSecret => {
                    &&& next is Ok <==> reply is Done
                    &&& next is Ok ==> next->Ok_0.phase == LiquidClaimRecoveryPhase::Finished
                },
                LiquidClaimRecoveryPhase::Finished => next is Err,
            }
        }),
{
}

/// The reply that a trace of the recovery of a Liquid reverse case holds for a phase.
pub open spec fn liquid_claim_recovery_told(
    trace: Seq<(LiquidClaimRecoveryRunView, ReplyView)>,
    phase: LiquidClaimRecoveryPhase,
) -> ReplyView {
    trace[choose|i: int| 0 <= i < trace.len() && (#[trigger] trace[i]).0.phase == phase].1
}

/// The values that a run of the recovery of a Liquid reverse case holds, by the replies that gave
/// them: each stays as the reply to one phase gave it, or as the run started with it.
pub open spec fn liquid_claim_recovery_holds(
    trace: Seq<(LiquidClaimRecoveryRunView, ReplyView)>,
    run: LiquidClaimRecoveryRunView,
) -> bool {
    let start = trace[0].0;
    let funding_id = liquid_claim_recovery_told(
        trace,
        LiquidClaimRecoveryPhase::RestoreRequest,
    )->LiquidRequest_exit.funding_id;
    let funding_output = liquid_claim_recovery_told(
        trace,
        LiquidClaimRecoveryPhase::RestoreRequest,
    )->LiquidRequest_exit.funding_output;
    let timelock = liquid_claim_recovery_told(
        trace,
        LiquidClaimRecoveryPhase::RestoreRequest,
    )->LiquidRequest_exit.timelock;
    let invoice = liquid_claim_recovery_told(trace, LiquidClaimRecoveryPhase::ReadInvoice)->Texts_0[0];
    let payment_hash = member_text(start.contract, "payment_hash"@)->0;
    let claim_id = liquid_claim_recovery_told(trace, LiquidClaimRecoveryPhase::ExecuteClaim)->Texts_0[0];
    let signed_claim_hex = liquid_claim_recovery_told(trace, LiquidClaimRecoveryPhase::ExecuteClaim)->Texts_0[1];
    let close_id = liquid_claim_recovery_told(trace, LiquidClaimRecoveryPhase::IngestClose)->Record_id;
    let funding_hex = liquid_claim_recovery_told(trace, LiquidClaimRecoveryPhase::ReadFunding)->Texts_0[0];
    let claim_hex = liquid_claim_recovery_told(trace, LiquidClaimRecoveryPhase::ReadClaim)->Texts_0[0];
    let lifecycle = recovered_lifecycle_reading(
        liquid_claim_recovery_told(trace, LiquidClaimRecoveryPhase::ReadRecords)->Records_0,
        start.kinds,
        start.offering_id,
        Some(close_id),
    )->Ok_0;
    &&& run.case == start.case
    &&& run.confirmations == start.confirmations
    &&& run.contract == start.contract
    &&& run.offering_id == start.offering_id
    &&& run.kinds == start.kinds
    &&& run.phase.rank() > LiquidClaimRecoveryPhase::RestoreRequest.rank()
        ==> run.funding_id == funding_id
    &&& run.phase.rank() > LiquidClaimRecoveryPhase::RestoreRequest.rank()
        ==> run.funding_output == funding_output
    &&& run.phase.rank() > LiquidClaimRecoveryPhase::RestoreRequest.rank()
        ==> run.timelock == timelock
    &&& run.phase.rank() > LiquidClaimRecoveryPhase::ReadInvoice.rank() ==> run.invoice == invoice
    &&& run.phase.rank() > LiquidClaimRecoveryPhase::ReadInvoice.rank()
        ==> run.payment_hash == payment_hash
    &&& run.phase.rank() > LiquidClaimRecoveryPhase::ExecuteClaim.rank()
        ==> run.claim_id == claim_id
    &&& run.phase.rank() > LiquidClaimRecoveryPhase::ExecuteClaim.rank()
        ==> run.signed_claim_hex == signed_claim_hex
    &&& run.phase.rank() > LiquidClaimRecoveryPhase::IngestClose.rank() ==> run.close_id == close_id
    &&& run.phase.rank() > LiquidClaimRecoveryPhase::ReadFunding.rank()
        ==> run.funding_hex == funding_hex
    &&& run.phase.rank() > LiquidClaimRecoveryPhase::ReadClaim.rank() ==> run.claim_hex == claim_hex
    &&& run.phase.rank() > LiquidClaimRecoveryPhase::ReadRecords.rank()
        ==> run.lifecycle == lifecycle
}

/// No phase of the recovery of a Liquid reverse case comes twice in a trace.
proof fn lemma_liquid_claim_recovery_told_once(
    trace: Seq<(LiquidClaimRecoveryRunView, ReplyView)>,
    place: int,
)
    requires
        is_liquid_claim_recovery_trace(trace),
        0 <= place < trace.len(),
    ensures
        liquid_claim_recovery_told(trace, trace[place].0.phase) == trace[place].1,
{
    let phase = trace[place].0.phase;
    let other = choose|i: int| 0 <= i < trace.len() && (#[trigger] trace[i]).0.phase == phase;
    assert(trace[place].0.phase == phase);
    if other != place {
        let (early, late) = if other < place {
            (other, place)
        } else {
            (place, other)
        };
        assert forall|run: LiquidClaimRecoveryRunView, reply: ReplyView|
            (#[trigger] liquid_claim_recovery_step(run, reply)) is Ok implies run.phase.rank() < liquid_claim_recovery_step(
            run,
            reply,
        )->Ok_0.phase.rank() by {
            law_liquid_claim_recovery_moves_forward(run, reply);
        }
        lemma_ranks_rise(
            trace,
            |run: LiquidClaimRecoveryRunView, reply: ReplyView| liquid_claim_recovery_step(run, reply),
            |run: LiquidClaimRecoveryRunView| run.phase.rank(),
            early,
            late,
        );
    }
}

/// A reply keeps what the recovery of a Liquid reverse case holds, and adds what it tells.
proof fn lemma_liquid_claim_recovery_holds_on(
    trace: Seq<(LiquidClaimRecoveryRunView, ReplyView)>,
    run: LiquidClaimRecoveryRunView,
    reply: ReplyView,
)
    requires
        liquid_claim_recovery_holds(trace, run),
        liquid_claim_recovery_told(trace, run.phase) == reply,
        liquid_claim_recovery_step(run, reply) is Ok,
    ensures
        liquid_claim_recovery_holds(trace, liquid_claim_recovery_step(run, reply)->Ok_0),
{
    let next = liquid_claim_recovery_step(run, reply)->Ok_0;
    match run.phase {
        LiquidClaimRecoveryPhase::RestoreRequest => {
            assert(liquid_claim_recovery_holds(trace, next))
        },
        LiquidClaimRecoveryPhase::ReadInvoice => assert(liquid_claim_recovery_holds(trace, next)),
        LiquidClaimRecoveryPhase::AwaitAttempt => assert(liquid_claim_recovery_holds(trace, next)),
        LiquidClaimRecoveryPhase::ExchangeFirst => assert(liquid_claim_recovery_holds(trace, next)),
        LiquidClaimRecoveryPhase::SayClaimPending => {
            assert(liquid_claim_recovery_holds(trace, next))
        },
        LiquidClaimRecoveryPhase::ExchangeClaimPending => {
            assert(liquid_claim_recovery_holds(trace, next))
        },
        LiquidClaimRecoveryPhase::VerifyRestored => {
            assert(liquid_claim_recovery_holds(trace, next))
        },
        LiquidClaimRecoveryPhase::LoadSecret => assert(liquid_claim_recovery_holds(trace, next)),
        LiquidClaimRecoveryPhase::ExecuteClaim => assert(liquid_claim_recovery_holds(trace, next)),
        LiquidClaimRecoveryPhase::SayClaimed => assert(liquid_claim_recovery_holds(trace, next)),
        LiquidClaimRecoveryPhase::ExchangeClaimed => {
            assert(liquid_claim_recovery_holds(trace, next))
        },
        LiquidClaimRecoveryPhase::AwaitClaimPropagated => {
            assert(liquid_claim_recovery_holds(trace, next))
        },
        LiquidClaimRecoveryPhase::MineClaim => assert(liquid_claim_recovery_holds(trace, next)),
        LiquidClaimRecoveryPhase::AwaitSettlement => {
            assert(liquid_claim_recovery_holds(trace, next))
        },
        LiquidClaimRecoveryPhase::AwaitPaid => assert(liquid_claim_recovery_holds(trace, next)),
        LiquidClaimRecoveryPhase::AwaitCompleted => {
            assert(liquid_claim_recovery_holds(trace, next))
        },
        LiquidClaimRecoveryPhase::AwaitPaymentEnd => {
            assert(liquid_claim_recovery_holds(trace, next))
        },
        LiquidClaimRecoveryPhase::ReadSpender => assert(liquid_claim_recovery_holds(trace, next)),
        LiquidClaimRecoveryPhase::AwaitClose => assert(liquid_claim_recovery_holds(trace, next)),
        LiquidClaimRecoveryPhase::IngestClose => assert(liquid_claim_recovery_holds(trace, next)),
        LiquidClaimRecoveryPhase::ReadFunding => assert(liquid_claim_recovery_holds(trace, next)),
        LiquidClaimRecoveryPhase::ReadClaim => assert(liquid_claim_recovery_holds(trace, next)),
        LiquidClaimRecoveryPhase::ReadRecords => assert(liquid_claim_recovery_holds(trace, next)),
        LiquidClaimRecoveryPhase::RemoveSecret => assert(liquid_claim_recovery_holds(trace, next)),
        LiquidClaimRecoveryPhase::Finished => assert(liquid_claim_recovery_holds(trace, next)),
    }
}

/// What the recovery of a Liquid reverse case has been told, it keeps: at every place of a trace
/// each value that the run holds is the one that the reply to the phase that asks for it gave, or
/// the one that the run started with.
pub proof fn law_liquid_claim_recovery_keeps_what_it_was_told(
    trace: Seq<(LiquidClaimRecoveryRunView, ReplyView)>,
    last: int,
)
    requires
        is_liquid_claim_recovery_trace(trace),
        0 <= last < trace.len(),
    ensures
        liquid_claim_recovery_holds(trace, trace[last].0),
    decreases last,
{
    if last > 0 {
        let before = last - 1;
        law_liquid_claim_recovery_keeps_what_it_was_told(trace, before);
        lemma_liquid_claim_recovery_told_once(trace, before);
        assert(liquid_claim_recovery_step(trace[before].0, trace[before].1) == Ok::<LiquidClaimRecoveryRunView, Seq<char>>(
            trace[before + 1].0,
        ));
        lemma_liquid_claim_recovery_holds_on(trace, trace[before].0, trace[before].1);
    }
}

/// What the recovery of a Liquid reverse case asks for in each phase, in terms of the replies
/// before it: the values in a request are those that the replies to the named phases gave, or those
/// that the run started with.
pub proof fn law_liquid_claim_recovery_asks_with_what_it_was_told(
    trace: Seq<(LiquidClaimRecoveryRunView, ReplyView)>,
    last: int,
)
    requires
        is_liquid_claim_recovery_trace(trace),
        0 <= last < trace.len(),
    ensures
        ({
            let start = trace[0].0;
            let funding_id = liquid_claim_recovery_told(
                trace,
                LiquidClaimRecoveryPhase::RestoreRequest,
            )->LiquidRequest_exit.funding_id;
            let funding_output = liquid_claim_recovery_told(
                trace,
                LiquidClaimRecoveryPhase::RestoreRequest,
            )->LiquidRequest_exit.funding_output;
            let invoice = liquid_claim_recovery_told(trace, LiquidClaimRecoveryPhase::ReadInvoice)->Texts_0[0];
            let payment_hash = member_text(start.contract, "payment_hash"@)->0;
            let claim_id = liquid_claim_recovery_told(trace, LiquidClaimRecoveryPhase::ExecuteClaim)->Texts_0[0];
            let action = liquid_claim_recovery_action(trace[last].0);
            match trace[last].0.phase {
                LiquidClaimRecoveryPhase::RestoreRequest => action == ActionView::Perform(
                    Task::RestoreLiquidRequest,
                    seq![],
                ),
                LiquidClaimRecoveryPhase::ReadInvoice => action == ActionView::Perform(
                    Task::ReadFundingInvoice,
                    seq![],
                ),
                LiquidClaimRecoveryPhase::AwaitAttempt => action == ActionView::Perform(
                    Task::AwaitPaymentAttempt,
                    seq![invoice, payment_hash],
                ),
                LiquidClaimRecoveryPhase::ExchangeFirst => action == ActionView::Perform(
                    Task::ExchangeDirect,
                    seq![],
                ),
                LiquidClaimRecoveryPhase::SayClaimPending => action == ActionView::SayDirect(
                    "requester_claim_pending"@,
                    no_members(),
                ),
                LiquidClaimRecoveryPhase::ExchangeClaimPending => action == ActionView::Perform(
                    Task::ExchangeDirect,
                    seq![],
                ),
                LiquidClaimRecoveryPhase::VerifyRestored => action == ActionView::Perform(
                    Task::VerifyRestored,
                    seq![],
                ),
                LiquidClaimRecoveryPhase::LoadSecret => action == ActionView::Perform(
                    Task::LoadSecret,
                    seq![start.case.journey_label()],
                ),
                LiquidClaimRecoveryPhase::ExecuteClaim => action == ActionView::Perform(
                    Task::ExecuteLiquidClaim,
                    seq![
                        "destination"@,
                        start.case.journey_label(),
                        "doomsday-liquid-reverse-claim"@,
                    ],
                ),
                LiquidClaimRecoveryPhase::SayClaimed => action == ActionView::SayDirect(
                    "requester_claimed"@,
                    no_members().insert("transaction_id"@, text_doc(claim_id)),
                ),
                LiquidClaimRecoveryPhase::ExchangeClaimed => action == ActionView::Perform(
                    Task::ExchangeDirect,
                    seq![],
                ),
                LiquidClaimRecoveryPhase::AwaitClaimPropagated => action == ActionView::AwaitTransaction(
                    "liquid"@,
                    claim_id,
                    "doomsday-liquid-reverse-claim"@,
                ),
                LiquidClaimRecoveryPhase::MineClaim => action == ActionView::Mine(
                    "liquid"@,
                    start.confirmations,
                    "doomsday-liquid-reverse-claim"@,
                ),
                LiquidClaimRecoveryPhase::AwaitSettlement => action == ActionView::AwaitDirectState(
                    "lightning_settlement_pending"@,
                ),
                LiquidClaimRecoveryPhase::AwaitPaid => action == ActionView::AwaitDirectState(
                    "lightning_paid"@,
                ),
                LiquidClaimRecoveryPhase::AwaitCompleted => action == ActionView::AwaitDirectState(
                    "completed"@,
                ),
                LiquidClaimRecoveryPhase::AwaitPaymentEnd => action == ActionView::Perform(
                    Task::AwaitPaymentEnd,
                    seq![invoice, payment_hash],
                ),
                LiquidClaimRecoveryPhase::ReadSpender => action == ActionView::Perform(
                    Task::ReadSpender,
                    seq![
                        "doomsday-liquid-reverse-spend"@,
                        funding_id,
                        decimal(funding_output as nat),
                    ],
                ),
                LiquidClaimRecoveryPhase::AwaitClose => action == ActionView::Perform(
                    Task::AwaitDirectClose,
                    seq![],
                ),
                LiquidClaimRecoveryPhase::IngestClose => action == ActionView::AwaitClose(
                    CloseCheckView {
                        outcome: "completed"@,
                        bitcoin: None,
                        liquid: Some(claim_id),
                        lightning: Some(
                            LightningView::Outgoing(invoice, payment_hash, "complete"@),
                        ),
                    },
                ),
                LiquidClaimRecoveryPhase::ReadFunding => action == ActionView::ReadTransaction(
                    "liquid"@,
                    funding_id,
                    "doomsday-liquid-reverse-funding-proof"@,
                ),
                LiquidClaimRecoveryPhase::ReadClaim => action == ActionView::ReadTransaction(
                    "liquid"@,
                    claim_id,
                    "doomsday-liquid-reverse-claim-proof"@,
                ),
                LiquidClaimRecoveryPhase::ReadRecords => action == ActionView::Perform(
                    Task::ReadRecords,
                    seq![],
                ),
                LiquidClaimRecoveryPhase::RemoveSecret => action == ActionView::Perform(
                    Task::RemoveSecret,
                    seq![start.case.journey_label()],
                ),
                LiquidClaimRecoveryPhase::Finished => action == ActionView::Finish,
            }
        }),
{
    law_liquid_claim_recovery_keeps_what_it_was_told(trace, last);
}

/// What the recovery of a Liquid reverse case reports at its end is what it was told on the way:
/// each identifier in the report is the one that the reply to the named phase gave, or one that the
/// run started with.
pub proof fn law_liquid_claim_recovery_doc_names_what_it_was_told(
    trace: Seq<(LiquidClaimRecoveryRunView, ReplyView)>,
    last: int,
)
    requires
        is_liquid_claim_recovery_trace(trace),
        0 <= last < trace.len(),
        trace[last].0.phase == LiquidClaimRecoveryPhase::Finished,
    ensures
        ({
            let start = trace[0].0;
            let funding_id = liquid_claim_recovery_told(
                trace,
                LiquidClaimRecoveryPhase::RestoreRequest,
            )->LiquidRequest_exit.funding_id;
            let funding_output = liquid_claim_recovery_told(
                trace,
                LiquidClaimRecoveryPhase::RestoreRequest,
            )->LiquidRequest_exit.funding_output;
            let payment_hash = member_text(start.contract, "payment_hash"@)->0;
            let claim_id = liquid_claim_recovery_told(trace, LiquidClaimRecoveryPhase::ExecuteClaim)->Texts_0[0];
            let close_id = liquid_claim_recovery_told(trace, LiquidClaimRecoveryPhase::IngestClose)->Record_id;
            let funding_hex = liquid_claim_recovery_told(trace, LiquidClaimRecoveryPhase::ReadFunding)->Texts_0[0];
            let claim_hex = liquid_claim_recovery_told(trace, LiquidClaimRecoveryPhase::ReadClaim)->Texts_0[0];
            let lifecycle = recovered_lifecycle_reading(
                liquid_claim_recovery_told(trace, LiquidClaimRecoveryPhase::ReadRecords)->Records_0,
                start.kinds,
                start.offering_id,
                Some(close_id),
            )->Ok_0;
            liquid_claim_recovery_doc(trace[last].0) == JsonView::Object(
                no_members().insert(
                    "liquid_case"@,
                    JsonView::Object(
                        no_members().insert("schema"@, text_doc("openagents.immortal.adversarial-liquid-case.v1"@)).insert("shape"@, text_doc("liquid-reverse"@)).insert("selected_provider"@, text_doc("provider-a"@)).insert("signed_lifecycle_event_ids"@, lifecycle).insert("rails"@, JsonView::Object(no_members().insert("liquid"@, leg_proof_doc("liquid"@, funding_id, funding_output, funding_hex, claim_id, claim_hex)))).insert("provider_effect_operations"@, texts_doc(seq!["liquid_reverse_fund"@])).insert("provider_status_anchors"@, texts_doc(seq!["provider_funding_broadcast"@])).insert("provider_restart"@, JsonView::Null).insert("liquid_terminal"@, JsonView::Object(no_members().insert("actor"@, text_doc("requester"@)).insert("path"@, text_doc("claim"@)).insert("effect_class"@, text_doc("liquid_spend"@)).insert("confirmed"@, JsonView::Bool(true)))).insert("lightning_terminal"@, lightning_terminal_doc("invoice_settle"@, payment_hash)).insert(
                            "recovery"@,
                            JsonView::Object(
                                no_members().insert(
                                    "mode"@,
                                    text_doc("direct-claim-and-hold-settlement"@),
                                ).insert("fresh_requester_process"@, JsonView::Bool(true)).insert("direct_provider_retained"@, JsonView::Bool(true)).insert("claim_transaction_id"@, text_doc(claim_id)).insert(
                                    "hold_invoice_terminal_state"@,
                                    text_doc("settled"@),
                                ),
                            ),
                        ),
                    ),
                ),
            )
        }),
{
    law_liquid_claim_recovery_keeps_what_it_was_told(trace, last);
}

/// The claim is made only while the payment is held.
pub proof fn law_liquid_claim_recovery_is_held_first(
    trace: Seq<(LiquidClaimRecoveryRunView, ReplyView)>,
    last: int,
)
    requires
        is_liquid_claim_recovery_trace(trace),
        0 <= last < trace.len(),
        trace[last].0.phase == LiquidClaimRecoveryPhase::ExecuteClaim,
    ensures
        exists|i: int|
            0 <= i < last && (#[trigger] trace[i]).0.phase == LiquidClaimRecoveryPhase::AwaitAttempt
                && trace[i].1 == ReplyView::Texts(seq!["pending"@]),
{
    let i = lemma_milestone(
        trace,
        |run: LiquidClaimRecoveryRunView, reply: ReplyView| liquid_claim_recovery_step(run, reply),
        |run: LiquidClaimRecoveryRunView| run.phase.rank(),
        2,
        last,
    );
    assert(trace[i].0.phase == LiquidClaimRecoveryPhase::AwaitAttempt);
    assert(liquid_claim_recovery_step(trace[i].0, trace[i].1) == Ok::<LiquidClaimRecoveryRunView,
        Seq<char>>(trace[i + 1].0));
    assert(trace[i].1->Texts_0 =~= seq!["pending"@]);
}

/// The claim is made only after the restored request has been verified again.
pub proof fn law_liquid_claim_recovery_verifies_first(
    trace: Seq<(LiquidClaimRecoveryRunView, ReplyView)>,
    last: int,
)
    requires
        is_liquid_claim_recovery_trace(trace),
        0 <= last < trace.len(),
        trace[last].0.phase == LiquidClaimRecoveryPhase::ExecuteClaim,
    ensures
        exists|i: int|
            0 <= i < last && (#[trigger] trace[i]).0.phase ==
                LiquidClaimRecoveryPhase::VerifyRestored && trace[i].1 == ReplyView::Done,
{
    let i = lemma_milestone(
        trace,
        |run: LiquidClaimRecoveryRunView, reply: ReplyView| liquid_claim_recovery_step(run, reply),
        |run: LiquidClaimRecoveryRunView| run.phase.rank(),
        6,
        last,
    );
    assert(trace[i].0.phase == LiquidClaimRecoveryPhase::VerifyRestored);
    assert(liquid_claim_recovery_step(trace[i].0, trace[i].1) == Ok::<LiquidClaimRecoveryRunView,
        Seq<char>>(trace[i + 1].0));
}

/// Whether every reply of a trace answers the action that it is told for.
pub open spec fn is_answered_liquid_claim_recovery(
    trace: Seq<(LiquidClaimRecoveryRunView, ReplyView)>,
    kinds: RecordKinds,
    provider: Seq<char>,
) -> bool {
    forall|i: int|
        0 <= i < trace.len() - 1 ==> answers(
            liquid_claim_recovery_action((#[trigger] trace[i]).0),
            trace[i].1,
            kinds,
            provider,
        )
}

/// The secret is removed only after the close has been verified.
pub proof fn law_liquid_claim_recovery_keeps_its_secret_to_the_end(
    trace: Seq<(LiquidClaimRecoveryRunView, ReplyView)>,
    kinds: RecordKinds,
    provider: Seq<char>,
    last: int,
)
    requires
        is_liquid_claim_recovery_trace(trace),
        is_answered_liquid_claim_recovery(trace, kinds, provider),
        0 <= last < trace.len(),
        trace[last].0.phase == LiquidClaimRecoveryPhase::RemoveSecret,
    ensures
        exists|i: int|
            0 <= i < last && (#[trigger] trace[i]).0.phase == LiquidClaimRecoveryPhase::IngestClose
                && closes(
                trace[i].1,
                kinds,
                provider,
                "completed"@,
            ),
{
    let i = lemma_milestone(
        trace,
        |run: LiquidClaimRecoveryRunView, reply: ReplyView| liquid_claim_recovery_step(run, reply),
        |run: LiquidClaimRecoveryRunView| run.phase.rank(),
        19,
        last,
    );
    assert(trace[i].0.phase == LiquidClaimRecoveryPhase::IngestClose);
    assert(answers(liquid_claim_recovery_action(trace[i].0), trace[i].1, kinds, provider));
}

/// The proof of a Liquid reverse case that was recovered.
pub open spec fn liquid_claim_recovery_doc(run: LiquidClaimRecoveryRunView) -> JsonView {
    JsonView::Object(
        no_members().insert(
            "liquid_case"@,
            JsonView::Object(
                no_members().insert(
                    "schema"@,
                    text_doc("openagents.immortal.adversarial-liquid-case.v1"@),
                ).insert("shape"@, text_doc("liquid-reverse"@)).insert(
                    "selected_provider"@,
                    text_doc("provider-a"@),
                ).insert("signed_lifecycle_event_ids"@, run.lifecycle).insert(
                    "rails"@,
                    JsonView::Object(
                        no_members().insert(
                            "liquid"@,
                            leg_proof_doc(
                                "liquid"@,
                                run.funding_id,
                                run.funding_output,
                                run.funding_hex,
                                run.claim_id,
                                run.claim_hex,
                            ),
                        ),
                    ),
                ).insert(
                    "provider_effect_operations"@,
                    texts_doc(seq!["liquid_reverse_fund"@]),
                ).insert(
                    "provider_status_anchors"@,
                    texts_doc(seq!["provider_funding_broadcast"@]),
                ).insert("provider_restart"@, JsonView::Null).insert(
                    "liquid_terminal"@,
                    JsonView::Object(
                        no_members().insert("actor"@, text_doc("requester"@)).insert(
                            "path"@,
                            text_doc("claim"@),
                        ).insert("effect_class"@, text_doc("liquid_spend"@)).insert(
                            "confirmed"@,
                            JsonView::Bool(true),
                        ),
                    ),
                ).insert(
                    "lightning_terminal"@,
                    lightning_terminal_doc("invoice_settle"@, run.payment_hash),
                ).insert(
                    "recovery"@,
                    JsonView::Object(
                        no_members().insert(
                            "mode"@,
                            text_doc("direct-claim-and-hold-settlement"@),
                        ).insert("fresh_requester_process"@, JsonView::Bool(true)).insert(
                            "direct_provider_retained"@,
                            JsonView::Bool(true),
                        ).insert("claim_transaction_id"@, text_doc(run.claim_id)).insert(
                            "hold_invoice_terminal_state"@,
                            text_doc("settled"@),
                        ),
                    ),
                ),
            ),
        ),
    )
}

impl LiquidClaimRecoveryRun {
    fn recovery_document(&self) -> (document: Json)
        ensures
            document@ == liquid_claim_recovery_doc(self@),
    {
        Json::object(
            JsonObject::new().with(
                "liquid_case",
                Json::object(
                    JsonObject::new().with_text(
                        "schema",
                        "openagents.immortal.adversarial-liquid-case.v1",
                    ).with_text("shape", "liquid-reverse").with_text(
                        "selected_provider",
                        "provider-a",
                    ).with("signed_lifecycle_event_ids", self.lifecycle.copy()).with(
                        "rails",
                        Json::object(
                            JsonObject::new().with(
                                "liquid",
                                chain_leg_process_proof(
                                    "liquid",
                                    self.funding_id.as_str(),
                                    self.funding_output,
                                    self.funding_hex.as_str(),
                                    self.claim_id.as_str(),
                                    self.claim_hex.as_str(),
                                ),
                            ),
                        ),
                    ).with("provider_effect_operations", one_text("liquid_reverse_fund")).with(
                        "provider_status_anchors",
                        one_text("provider_funding_broadcast"),
                    ).with("provider_restart", Json::null()).with(
                        "liquid_terminal",
                        Json::object(
                            JsonObject::new().with_text("actor", "requester").with_text(
                                "path",
                                "claim",
                            ).with_text("effect_class", "liquid_spend").with_bool(
                                "confirmed",
                                true,
                            ),
                        ),
                    ).with(
                        "lightning_terminal",
                        lightning_terminal("invoice_settle", self.payment_hash.as_str()),
                    ).with(
                        "recovery",
                        Json::object(
                            JsonObject::new().with_text(
                                "mode",
                                "direct-claim-and-hold-settlement",
                            ).with_bool("fresh_requester_process", true).with_bool(
                                "direct_provider_retained",
                                true,
                            ).with_text("claim_transaction_id", self.claim_id.as_str()).with_text(
                                "hold_invoice_terminal_state",
                                "settled",
                            ),
                        ),
                    ),
                ),
            ),
        )
    }

    /// The proof of a Liquid reverse case that was recovered; nothing before it is over.
    pub fn recovered(&self) -> (document: Option<Json>)
        ensures
            match document {
                Some(document) => self@.phase == LiquidClaimRecoveryPhase::Finished && document@ == liquid_claim_recovery_doc(self@),
                None => self@.phase != LiquidClaimRecoveryPhase::Finished,
            },
    {
        if self.phase == LiquidClaimRecoveryPhase::Finished {
            Some(self.recovery_document())
        } else {
            None
        }
    }
}

/// A submarine refund that is broadcast is broadcast at or above the height that the contract
/// commits to.
pub proof fn law_refund_height_is_reached(run: RefundRecoveryRunView, reply: ReplyView)
    requires
        run.phase == RefundRecoveryPhase::ReadTimeoutHeight,
        refund_recovery_step(run, reply) is Ok,
    ensures
        refund_recovery_step(run, reply)->Ok_0.timeout_height >= run.refund_lock_height,
{
}

/// Blocks are mined for a Liquid refund exactly where its lock has not run out, and as many as are
/// missing.
pub proof fn law_liquid_refund_matures(run: LiquidRefundRecoveryRunView, reply: ReplyView)
    requires
        run.phase == LiquidRefundRecoveryPhase::ReadHeight,
        liquid_refund_recovery_step(run, reply) is Ok,
    ensures
        ({
            let after = liquid_refund_recovery_step(run, reply)->Ok_0;
            if after.height < run.timelock {
                &&& after.phase == LiquidRefundRecoveryPhase::MineMaturity
                &&& after.height + blocks_until(after.timelock, after.height) == run.timelock
            } else {
                after.phase == LiquidRefundRecoveryPhase::BroadcastRefund
            }
        }),
{
}

} // verus!
