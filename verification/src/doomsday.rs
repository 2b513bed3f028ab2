//! Preparing the cases in which one side of a swap will be gone.

use vstd::prelude::*;
use crate::answer::{answers, says};
use crate::amount::OUTPUT_AMOUNT_SAT;
use crate::contract::{BitcoinTerms, bitcoin_terms, terms_reading};
use crate::control::{said, told_json};
use crate::hex::{decode_fixed_hex, fixed_reading};
use crate::journey::{DoomsdayCase, liquid_doomsday_journey_name};
use crate::json::{Json, JsonObject, JsonView, member, no_members, number_doc, step, text_doc};
use crate::lifecycle::{outpoint_reading, status_outpoint};
use crate::machine::{
    Action, ActionView, INVOICE_EXPIRY_SECONDS, Reply, ReplyView, Task, effect_details, effect_doc,
    is_presigned_refund, is_wallet_claim, lemma_milestone, lemma_ranks_rise, perform, perform_with,
    perform_with_four, perform_with_three, perform_with_two, wrong_reply, wrong_reply_text,
};
use crate::record::{RecordKinds, profile_reading, record_profile};
use crate::text::{decimal, decimal_text, same_text};

verus! {

/// Whether an exit package names that it has no signer.
pub open spec fn has_no_signer(document: JsonView) -> bool {
    step(member(document, "exit"@), "signer_ref"@) == Some(JsonView::Null)
}

fn no_signer(document: &Json) -> (none: bool)
    ensures
        none == has_no_signer(document@),
{
    match document.get("exit") {
        Some(exit) => match exit.get("signer_ref") {
            Some(signer) => signer.is_null(),
            None => false,
        },
        None => false,
    }
}

/// The journey name of a Liquid case, as long as it was prepared from its own journey.
pub open spec fn doomsday_name(case: DoomsdayCase, prepared: Seq<char>) -> Result<
    Seq<char>,
    Seq<char>,
> {
    match case.prepared_journey() {
        None => Err("selected doomsday case is not a Liquid scenario"@),
        Some(expected) => if prepared == expected {
            Ok(case.journey_label())
        } else {
            Err("Liquid doomsday preparation used another journey"@)
        },
    }
}

/// The journey name of a Liquid case, as long as it was prepared from its own journey: it can be
/// had exactly where every part that it rests on can, and each part of it is the one that its name
/// says.
pub proof fn law_doomsday_name_is_read_from_its_parts(case: DoomsdayCase, prepared: Seq<char>)
    ensures
        ({
            let read = doomsday_name(case, prepared);
            let given = read->Ok_0;
            &&& read is Ok <==> {
                &&& case.prepared_journey() is Some
                &&& prepared == case.prepared_journey()->0
            }
            &&& read is Ok ==> {
                &&& given == case.journey_label()
            }
        }),
{
}

fn text_or_empty(text: Option<String>) -> (kept: String)
    ensures
        text matches Some(inner) ==> kept@ == inner@,
{
    match text {
        Some(inner) => inner,
        None => String::new(),
    }
}

/// The phases of the lock of a submarine case, in their order.
#[derive(Clone, Copy, Debug, PartialEq, Eq, Structural)]
pub enum DoomsdayLockPhase {
    CreateInvoice,
    FundWallet,
    PrepareOrder,
    AwaitAccepted,
    AwaitLockTerms,
    TakeFunding,
    AuthorizeFunding,
    KeepAuthorization,
    SayVerified,
    KeepReady,
    BroadcastFunding,
    RecordFunding,
    KeepPrepared,
    Finished,
}

impl DoomsdayLockPhase {
    /// The place of the phase in their order.
    pub open spec fn rank(self) -> int {
        match self {
            DoomsdayLockPhase::CreateInvoice => 0,
            DoomsdayLockPhase::FundWallet => 1,
            DoomsdayLockPhase::PrepareOrder => 2,
            DoomsdayLockPhase::AwaitAccepted => 3,
            DoomsdayLockPhase::AwaitLockTerms => 4,
            DoomsdayLockPhase::TakeFunding => 5,
            DoomsdayLockPhase::AuthorizeFunding => 6,
            DoomsdayLockPhase::KeepAuthorization => 7,
            DoomsdayLockPhase::SayVerified => 8,
            DoomsdayLockPhase::KeepReady => 9,
            DoomsdayLockPhase::BroadcastFunding => 10,
            DoomsdayLockPhase::RecordFunding => 11,
            DoomsdayLockPhase::KeepPrepared => 12,
            DoomsdayLockPhase::Finished => 13,
        }
    }
}

/// A submarine swap that is locked with its refund signed beforehand, and then left alone.
pub struct DoomsdayLockRun {
    pub phase: DoomsdayLockPhase,
    pub case: DoomsdayCase,
    pub provider_pubkey: String,
    pub payment_hash: String,
    pub invoice: String,
    pub order_id: String,
    pub contract: Json,
    pub funding_id: String,
    pub funding_output: u32,
    pub funding_hex: String,
    pub refund_lock_height: u32,
}

/// A submarine swap that is locked with its refund signed beforehand, and then left alone.
#[verifier::ext_equal]
pub struct DoomsdayLockRunView {
    pub phase: DoomsdayLockPhase,
    pub case: DoomsdayCase,
    pub provider_pubkey: Seq<char>,
    pub payment_hash: Seq<char>,
    pub invoice: Seq<char>,
    pub order_id: Seq<char>,
    pub contract: JsonView,
    pub funding_id: Seq<char>,
    pub funding_output: u32,
    pub funding_hex: Seq<char>,
    pub refund_lock_height: u32,
}

impl View for DoomsdayLockRun {
    type V = DoomsdayLockRunView;

    open spec fn view(&self) -> DoomsdayLockRunView {
        DoomsdayLockRunView {
            phase: self.phase,
            case: self.case,
            provider_pubkey: self.provider_pubkey@,
            payment_hash: self.payment_hash@,
            invoice: self.invoice@,
            order_id: self.order_id@,
            contract: self.contract@,
            funding_id: self.funding_id@,
            funding_output: self.funding_output,
            funding_hex: self.funding_hex@,
            refund_lock_height: self.refund_lock_height,
        }
    }
}

/// What the lock of a submarine case asks for next.
pub open spec fn doomsday_lock_action(run: DoomsdayLockRunView) -> ActionView {
    match run.phase {
        DoomsdayLockPhase::CreateInvoice => ActionView::Perform(
            Task::CreateInvoice,
            seq![
                run.case.invoice_text(),
                decimal(OUTPUT_AMOUNT_SAT as nat),
                "Immortal adversarial doomsday refund"@,
                decimal(INVOICE_EXPIRY_SECONDS as nat),
            ],
        ),
        DoomsdayLockPhase::FundWallet => ActionView::Perform(Task::FundWallet, seq![]),
        DoomsdayLockPhase::PrepareOrder => ActionView::Perform(
            Task::PrepareOrder,
            seq![run.payment_hash, run.invoice],
        ),
        DoomsdayLockPhase::AwaitAccepted => ActionView::AwaitState("accepted"@),
        DoomsdayLockPhase::AwaitLockTerms => ActionView::AwaitState("lock_terms_ready"@),
        DoomsdayLockPhase::TakeFunding => ActionView::Perform(Task::TakeFunding, seq![]),
        DoomsdayLockPhase::AuthorizeFunding => ActionView::Perform(
            Task::AuthorizeFunding,
            seq![run.invoice],
        ),
        DoomsdayLockPhase::KeepAuthorization => ActionView::Perform(
            Task::KeepAuthorization,
            seq![],
        ),
        DoomsdayLockPhase::SayVerified => ActionView::Say(
            "requester_verification_passed"@,
            no_members(),
        ),
        DoomsdayLockPhase::KeepReady => ActionView::Keep(
            "funding_execution_ready"@,
            effect_doc(run.funding_id),
        ),
        DoomsdayLockPhase::BroadcastFunding => ActionView::Perform(
            Task::BroadcastBitcoin,
            seq!["doomsday-funding"@, run.funding_hex, run.funding_id],
        ),
        DoomsdayLockPhase::RecordFunding => ActionView::Perform(
            Task::RecordFundingEffect,
            seq![run.funding_id, run.funding_hex, "text"@],
        ),
        DoomsdayLockPhase::KeepPrepared => ActionView::Keep(
            "doomsday_prepared"@,
            JsonView::Object(
                no_members().insert("funding_transaction_id"@, text_doc(run.funding_id)).insert(
                    "refund_lock_height"@,
                    number_doc(run.refund_lock_height as u64),
                ).insert("package_mode"@, text_doc("presigned"@)).insert(
                    "signed_before_contract"@,
                    JsonView::Bool(true),
                ).insert("signed_before_funding"@, JsonView::Bool(true)),
            ),
        ),
        DoomsdayLockPhase::Finished => ActionView::Finish,
    }
}

/// Where a reply takes the lock of a submarine case.
pub open spec fn doomsday_lock_step(run: DoomsdayLockRunView, reply: ReplyView) -> Result<
    DoomsdayLockRunView,
    Seq<char>,
> {
    match (run.phase, reply) {
        (DoomsdayLockPhase::CreateInvoice, ReplyView::Texts(texts)) => {
            if texts.len() != 2 {
                Err(wrong_reply())
            } else {
                Ok(
                    DoomsdayLockRunView {
                        phase: DoomsdayLockPhase::FundWallet,
                        payment_hash: texts[0],
                        invoice: texts[1],
                        ..run
                    },
                )
            }
        },
        (DoomsdayLockPhase::FundWallet, ReplyView::Done) => Ok(
            DoomsdayLockRunView { phase: DoomsdayLockPhase::PrepareOrder, ..run },
        ),
        (DoomsdayLockPhase::PrepareOrder, ReplyView::Session { order_id, contract }) => Ok(
            DoomsdayLockRunView {
                phase: DoomsdayLockPhase::AwaitAccepted,
                order_id: order_id,
                contract: contract,
                ..run
            },
        ),
        (DoomsdayLockPhase::AwaitAccepted, ReplyView::Record { .. }) => Ok(
            DoomsdayLockRunView { phase: DoomsdayLockPhase::AwaitLockTerms, ..run },
        ),
        (DoomsdayLockPhase::AwaitLockTerms, ReplyView::Record { .. }) => Ok(
            DoomsdayLockRunView { phase: DoomsdayLockPhase::TakeFunding, ..run },
        ),
        (DoomsdayLockPhase::TakeFunding, ReplyView::Funding { receipt, id, output_index, hex }) => Ok(
            DoomsdayLockRunView {
                phase: DoomsdayLockPhase::AuthorizeFunding,
                funding_id: id,
                funding_output: output_index,
                funding_hex: hex,
                ..run
            },
        ),
        (DoomsdayLockPhase::TakeFunding, ReplyView::Done) => Err(
            "doomsday session has no contract-bound funding"@,
        ),
        (DoomsdayLockPhase::AuthorizeFunding, ReplyView::Package { mode, document }) => {
            if mode != "presigned"@ || !has_no_signer(document) {
                Err("doomsday refund was not pre-signed before Contracts"@)
            } else {
                Ok(DoomsdayLockRunView { phase: DoomsdayLockPhase::KeepAuthorization, ..run })
            }
        },
        (DoomsdayLockPhase::AuthorizeFunding, ReplyView::Done) => Err(
            "doomsday session has no requester refund package"@,
        ),
        (DoomsdayLockPhase::KeepAuthorization, ReplyView::Done) => Ok(
            DoomsdayLockRunView { phase: DoomsdayLockPhase::SayVerified, ..run },
        ),
        (DoomsdayLockPhase::SayVerified, ReplyView::Record { .. }) => Ok(
            DoomsdayLockRunView { phase: DoomsdayLockPhase::KeepReady, ..run },
        ),
        (DoomsdayLockPhase::KeepReady, ReplyView::Done) => Ok(
            DoomsdayLockRunView { phase: DoomsdayLockPhase::BroadcastFunding, ..run },
        ),
        (DoomsdayLockPhase::BroadcastFunding, ReplyView::Done) => Ok(
            DoomsdayLockRunView { phase: DoomsdayLockPhase::RecordFunding, ..run },
        ),
        (DoomsdayLockPhase::RecordFunding, ReplyView::Done) => match terms_reading(
            run.contract,
            "source"@,
        ) {
            Err(message) => Err(message),
            Ok(terms) => Ok(
                DoomsdayLockRunView {
                    phase: DoomsdayLockPhase::KeepPrepared,
                    refund_lock_height: terms.refund_lock_height,
                    ..run
                },
            ),
        },
        (DoomsdayLockPhase::KeepPrepared, ReplyView::Done) => Ok(
            DoomsdayLockRunView { phase: DoomsdayLockPhase::Finished, ..run },
        ),
        _ => Err(wrong_reply()),
    }
}

impl DoomsdayLockRun {
    /// The lock of a submarine case before its first action.
    pub fn new(case: DoomsdayCase, provider_pubkey: &str) -> (run: DoomsdayLockRun)
        ensures
            run@.phase == DoomsdayLockPhase::CreateInvoice,
            run@.case == case,
            run@.provider_pubkey == provider_pubkey@,
            run@.payment_hash == Seq::<char>::empty(),
            run@.invoice == Seq::<char>::empty(),
            run@.order_id == Seq::<char>::empty(),
            run@.contract == JsonView::Null,
            run@.funding_id == Seq::<char>::empty(),
            run@.funding_output == 0,
            run@.funding_hex == Seq::<char>::empty(),
            run@.refund_lock_height == 0,
    {
        DoomsdayLockRun {
            phase: DoomsdayLockPhase::CreateInvoice,
            case,
            provider_pubkey: provider_pubkey.to_owned(),
            payment_hash: String::new(),
            invoice: String::new(),
            order_id: String::new(),
            contract: Json::null(),
            funding_id: String::new(),
            funding_output: 0,
            funding_hex: String::new(),
            refund_lock_height: 0,
        }
    }

    /// What the journey asks for next.
    pub fn action(&self) -> (action: Action)
        ensures
            action@ == doomsday_lock_action(self@),
    {
        match self.phase {
            DoomsdayLockPhase::CreateInvoice => perform_with_four(
                Task::CreateInvoice,
                self.case.invoice_label(),
                decimal_text(OUTPUT_AMOUNT_SAT).as_str(),
                "Immortal adversarial doomsday refund",
                decimal_text(INVOICE_EXPIRY_SECONDS).as_str(),
            ),
            DoomsdayLockPhase::FundWallet => perform(Task::FundWallet),
            DoomsdayLockPhase::PrepareOrder => perform_with_two(
                Task::PrepareOrder,
                self.payment_hash.as_str(),
                self.invoice.as_str(),
            ),
            DoomsdayLockPhase::AwaitAccepted => Action::AwaitState("accepted"),
            DoomsdayLockPhase::AwaitLockTerms => Action::AwaitState("lock_terms_ready"),
            DoomsdayLockPhase::TakeFunding => perform(Task::TakeFunding),
            DoomsdayLockPhase::AuthorizeFunding => perform_with(
                Task::AuthorizeFunding,
                self.invoice.as_str(),
            ),
            DoomsdayLockPhase::KeepAuthorization => perform(Task::KeepAuthorization),
            DoomsdayLockPhase::SayVerified => Action::Say(
                "requester_verification_passed",
                JsonObject::new(),
            ),
            DoomsdayLockPhase::KeepReady => Action::Keep(
                "funding_execution_ready",
                effect_details(self.funding_id.as_str()),
            ),
            DoomsdayLockPhase::BroadcastFunding => perform_with_three(
                Task::BroadcastBitcoin,
                "doomsday-funding",
                self.funding_hex.as_str(),
                self.funding_id.as_str(),
            ),
            DoomsdayLockPhase::RecordFunding => perform_with_three(
                Task::RecordFundingEffect,
                self.funding_id.as_str(),
                self.funding_hex.as_str(),
                "text",
            ),
            DoomsdayLockPhase::KeepPrepared => Action::Keep(
                "doomsday_prepared",
                Json::object(
                    JsonObject::new().with_text(
                        "funding_transaction_id",
                        self.funding_id.as_str(),
                    ).with_number("refund_lock_height", self.refund_lock_height as u64).with_text(
                        "package_mode",
                        "presigned",
                    ).with_bool("signed_before_contract", true).with_bool(
                        "signed_before_funding",
                        true,
                    ),
                ),
            ),
            DoomsdayLockPhase::Finished => Action::Finish,
        }
    }

    /// Takes a reply: the journey goes on to its next phase, or ends with a message.
    #[verifier::rlimit(60)]
    pub fn advance(&mut self, reply: Reply) -> (moved: Result<(), String>)
        ensures
            match moved {
                Ok(_) => doomsday_lock_step(
                    old(self)@,
                    reply@,
                ) == Ok::<DoomsdayLockRunView, Seq<char>>(final(self)@),
                Err(message) => {
                    &&& doomsday_lock_step(
                        old(self)@,
                        reply@,
                    ) == Err::<DoomsdayLockRunView, Seq<char>>(message@)
                    &&& final(self)@ == old(self)@
                },
            },
    {
        match (self.phase, reply) {
            (DoomsdayLockPhase::CreateInvoice, Reply::Texts(texts)) => {
                if texts.len() != 2 {
                    return Err(wrong_reply_text());
                }
                self.payment_hash = texts[0].clone();
                self.invoice = texts[1].clone();
                self.phase = DoomsdayLockPhase::FundWallet;
                Ok(())
            },
            (DoomsdayLockPhase::FundWallet, Reply::Done) => {
                self.phase = DoomsdayLockPhase::PrepareOrder;
                Ok(())
            },
            (DoomsdayLockPhase::PrepareOrder, Reply::Session { order_id, contract }) => {
                self.order_id = order_id;
                self.contract = contract;
                self.phase = DoomsdayLockPhase::AwaitAccepted;
                Ok(())
            },
            (DoomsdayLockPhase::AwaitAccepted, Reply::Record(_)) => {
                self.phase = DoomsdayLockPhase::AwaitLockTerms;
                Ok(())
            },
            (DoomsdayLockPhase::AwaitLockTerms, Reply::Record(_)) => {
                self.phase = DoomsdayLockPhase::TakeFunding;
                Ok(())
            },
            (DoomsdayLockPhase::TakeFunding, Reply::Funding { receipt: _, id, output_index, hex }) => {
                self.funding_id = id;
                self.funding_output = output_index;
                self.funding_hex = hex;
                self.phase = DoomsdayLockPhase::AuthorizeFunding;
                Ok(())
            },
            (DoomsdayLockPhase::TakeFunding, Reply::Done) => {
                Err("doomsday session has no contract-bound funding".to_owned())
            },
            (DoomsdayLockPhase::AuthorizeFunding, Reply::Package { mode, document }) => {
                if !same_text(mode.as_str(), "presigned") || !no_signer(&document) {
                    return Err("doomsday refund was not pre-signed before Contracts".to_owned());
                }
                self.phase = DoomsdayLockPhase::KeepAuthorization;
                Ok(())
            },
            (DoomsdayLockPhase::AuthorizeFunding, Reply::Done) => {
                Err("doomsday session has no requester refund package".to_owned())
            },
            (DoomsdayLockPhase::KeepAuthorization, Reply::Done) => {
                self.phase = DoomsdayLockPhase::SayVerified;
                Ok(())
            },
            (DoomsdayLockPhase::SayVerified, Reply::Record(_)) => {
                self.phase = DoomsdayLockPhase::KeepReady;
                Ok(())
            },
            (DoomsdayLockPhase::KeepReady, Reply::Done) => {
                self.phase = DoomsdayLockPhase::BroadcastFunding;
                Ok(())
            },
            (DoomsdayLockPhase::BroadcastFunding, Reply::Done) => {
                self.phase = DoomsdayLockPhase::RecordFunding;
                Ok(())
            },
            (DoomsdayLockPhase::RecordFunding, Reply::Done) => {
                let terms: BitcoinTerms = bitcoin_terms(&self.contract, "source")?;
                self.refund_lock_height = terms.refund_lock_height;
                self.phase = DoomsdayLockPhase::KeepPrepared;
                Ok(())
            },
            (DoomsdayLockPhase::KeepPrepared, Reply::Done) => {
                self.phase = DoomsdayLockPhase::Finished;
                Ok(())
            },
            _ => Err(wrong_reply_text()),
        }
    }
}

/// Whether each entry of a trace leads to the one after it, from the first phase on.
pub open spec fn is_doomsday_lock_trace(trace: Seq<(DoomsdayLockRunView, ReplyView)>) -> bool {
    &&& trace.len() > 0
    &&& trace[0].0.phase == DoomsdayLockPhase::CreateInvoice
    &&& forall|i: int|
        0 <= i < trace.len() - 1 ==> doomsday_lock_step(
            (#[trigger] trace[i]).0,
            trace[i].1,
        ) == Ok::<
            DoomsdayLockRunView,
            Seq<char>,
        >(trace[i + 1].0)
}

/// Each reply takes the lock of a submarine case forward, never back and never in place.
pub proof fn law_doomsday_lock_moves_forward(run: DoomsdayLockRunView, reply: ReplyView)
    requires
        doomsday_lock_step(run, reply) is Ok,
    ensures
        run.phase.rank() < doomsday_lock_step(run, reply)->Ok_0.phase.rank(),
{
}

/// Which replies take the lock of a submarine case on, and to which phase: in each phase exactly
/// the replies that pass every check of that phase, and no others.
pub proof fn law_doomsday_lock_goes_on_only_when_answered(
    run: DoomsdayLockRunView,
    reply: ReplyView,
)
    ensures
        ({
            let next = doomsday_lock_step(run, reply);
            match run.phase {
                DoomsdayLockPhase::CreateInvoice => {
                    &&& next is Ok <==> {
                        &&& reply is Texts
                        &&& reply->Texts_0.len() == 2
                    }
                    &&& next is Ok ==> next->Ok_0.phase == DoomsdayLockPhase::FundWallet
                },
                DoomsdayLockPhase::FundWallet => {
                    &&& next is Ok <==> reply is Done
                    &&& next is Ok ==> next->Ok_0.phase == DoomsdayLockPhase::PrepareOrder
                },
                DoomsdayLockPhase::PrepareOrder => {
                    &&& next is Ok <==> reply is Session
                    &&& next is Ok ==> next->Ok_0.phase == DoomsdayLockPhase::AwaitAccepted
                },
                DoomsdayLockPhase::AwaitAccepted => {
                    &&& next is Ok <==> reply is Record
                    &&& next is Ok ==> next->Ok_0.phase == DoomsdayLockPhase::AwaitLockTerms
                },
                DoomsdayLockPhase::AwaitLockTerms => {
                    &&& next is Ok <==> reply is Record
                    &&& next is Ok ==> next->Ok_0.phase == DoomsdayLockPhase::TakeFunding
                },
                DoomsdayLockPhase::TakeFunding => {
                    &&& next is Ok <==> reply is Funding
                    &&& next is Ok ==> next->Ok_0.phase == DoomsdayLockPhase::AuthorizeFunding
                },
                DoomsdayLockPhase::AuthorizeFunding => {
                    &&& next is Ok <==> {
                        &&& reply is Package
                        &&& reply->Package_mode == "presigned"@
                        &&& has_no_signer(reply->Package_document)
                    }
                    &&& next is Ok ==> next->Ok_0.phase == DoomsdayLockPhase::KeepAuthorization
                },
                DoomsdayLockPhase::KeepAuthorization => {
                    &&& next is Ok <==> reply is Done
                    &&& next is Ok ==> next->Ok_0.phase == DoomsdayLockPhase::SayVerified
                },
                DoomsdayLockPhase::SayVerified => {
                    &&& next is Ok <==> reply is Record
                    &&& next is Ok ==> next->Ok_0.phase == DoomsdayLockPhase::KeepReady
                },
                DoomsdayLockPhase::KeepReady => {
                    &&& next is Ok <==> reply is Done
                    &&& next is Ok ==> next->Ok_0.phase == DoomsdayLockPhase::BroadcastFunding
                },
                DoomsdayLockPhase::BroadcastFunding => {
                    &&& next is Ok <==> reply is Done
                    &&& next is Ok ==> next->Ok_0.phase == DoomsdayLockPhase::RecordFunding
                },
                DoomsdayLockPhase::RecordFunding => {
                    &&& next is Ok <==> {
                        &&& reply is Done
                        &&& terms_reading(run.contract, "source"@) is Ok
                    }
                    &&& next is Ok ==> next->Ok_0.phase == DoomsdayLockPhase::KeepPrepared
                },
                DoomsdayLockPhase::KeepPrepared => {
                    &&& next is Ok <==> reply is Done
                    &&& next is Ok ==> next->Ok_0.phase == DoomsdayLockPhase::Finished
                },
                DoomsdayLockPhase::Finished => next is Err,
            }
        }),
{
}

/// The reply that a trace of the lock of a submarine case holds for a phase.
pub open spec fn doomsday_lock_told(
    trace: Seq<(DoomsdayLockRunView, ReplyView)>,
    phase: DoomsdayLockPhase,
) -> ReplyView {
    trace[choose|i: int| 0 <= i < trace.len() && (#[trigger] trace[i]).0.phase == phase].1
}

/// The values that a run of the lock of a submarine case holds, by the replies that gave them: each
/// stays as the reply to one phase gave it, or as the run started with it.
pub open spec fn doomsday_lock_holds(
    trace: Seq<(DoomsdayLockRunView, ReplyView)>,
    run: DoomsdayLockRunView,
) -> bool {
    let start = trace[0].0;
    let payment_hash = doomsday_lock_told(trace, DoomsdayLockPhase::CreateInvoice)->Texts_0[0];
    let invoice = doomsday_lock_told(trace, DoomsdayLockPhase::CreateInvoice)->Texts_0[1];
    let order_id = doomsday_lock_told(trace, DoomsdayLockPhase::PrepareOrder)->Session_order_id;
    let contract = doomsday_lock_told(trace, DoomsdayLockPhase::PrepareOrder)->Session_contract;
    let funding_id = doomsday_lock_told(trace, DoomsdayLockPhase::TakeFunding)->Funding_id;
    let funding_output = doomsday_lock_told(trace, DoomsdayLockPhase::TakeFunding)->Funding_output_index;
    let funding_hex = doomsday_lock_told(trace, DoomsdayLockPhase::TakeFunding)->Funding_hex;
    let refund_lock_height = terms_reading(contract, "source"@)->Ok_0.refund_lock_height;
    &&& run.case == start.case
    &&& run.provider_pubkey == start.provider_pubkey
    &&& run.phase.rank() > DoomsdayLockPhase::CreateInvoice.rank()
        ==> run.payment_hash == payment_hash
    &&& run.phase.rank() > DoomsdayLockPhase::CreateInvoice.rank() ==> run.invoice == invoice
    &&& run.phase.rank() > DoomsdayLockPhase::PrepareOrder.rank() ==> run.order_id == order_id
    &&& run.phase.rank() > DoomsdayLockPhase::PrepareOrder.rank() ==> run.contract == contract
    &&& run.phase.rank() > DoomsdayLockPhase::TakeFunding.rank() ==> run.funding_id == funding_id
    &&& run.phase.rank() > DoomsdayLockPhase::TakeFunding.rank()
        ==> run.funding_output == funding_output
    &&& run.phase.rank() > DoomsdayLockPhase::TakeFunding.rank() ==> run.funding_hex == funding_hex
    &&& run.phase.rank() > DoomsdayLockPhase::RecordFunding.rank()
        ==> run.refund_lock_height == refund_lock_height
}

/// No phase of the lock of a submarine case comes twice in a trace.
proof fn lemma_doomsday_lock_told_once(trace: Seq<(DoomsdayLockRunView, ReplyView)>, place: int)
    requires
        is_doomsday_lock_trace(trace),
        0 <= place < trace.len(),
    ensures
        doomsday_lock_told(trace, trace[place].0.phase) == trace[place].1,
{
    let phase = trace[place].0.phase;
    let other = choose|i: int| 0 <= i < trace.len() && (#[trigger] trace[i]).0.phase == phase;
    assert(trace[place].0.phase == phase);
    if other != place {
        let (early, late) = if other < place {
            (other, place)
        } else {
            (place, other)
        };
        assert forall|run: DoomsdayLockRunView, reply: ReplyView|
            (#[trigger] doomsday_lock_step(run, reply)) is Ok implies run.phase.rank() < doomsday_lock_step(
            run,
            reply,
        )->Ok_0.phase.rank() by {
            law_doomsday_lock_moves_forward(run, reply);
        }
        lemma_ranks_rise(
            trace,
            |run: DoomsdayLockRunView, reply: ReplyView| doomsday_lock_step(run, reply),
            |run: DoomsdayLockRunView| run.phase.rank(),
            early,
            late,
        );
    }
}

/// A reply keeps what the lock of a submarine case holds, and adds what it tells.
proof fn lemma_doomsday_lock_holds_on(
    trace: Seq<(DoomsdayLockRunView, ReplyView)>,
    run: DoomsdayLockRunView,
    reply: ReplyView,
)
    requires
        doomsday_lock_holds(trace, run),
        doomsday_lock_told(trace, run.phase) == reply,
        doomsday_lock_step(run, reply) is Ok,
    ensures
        doomsday_lock_holds(trace, doomsday_lock_step(run, reply)->Ok_0),
{
    let next = doomsday_lock_step(run, reply)->Ok_0;
    match run.phase {
        DoomsdayLockPhase::CreateInvoice => assert(doomsday_lock_holds(trace, next)),
        DoomsdayLockPhase::FundWallet => assert(doomsday_lock_holds(trace, next)),
        DoomsdayLockPhase::PrepareOrder => assert(doomsday_lock_holds(trace, next)),
        DoomsdayLockPhase::AwaitAccepted => assert(doomsday_lock_holds(trace, next)),
        DoomsdayLockPhase::AwaitLockTerms => assert(doomsday_lock_holds(trace, next)),
        DoomsdayLockPhase::TakeFunding => assert(doomsday_lock_holds(trace, next)),
        DoomsdayLockPhase::AuthorizeFunding => assert(doomsday_lock_holds(trace, next)),
        DoomsdayLockPhase::KeepAuthorization => assert(doomsday_lock_holds(trace, next)),
        DoomsdayLockPhase::SayVerified => assert(doomsday_lock_holds(trace, next)),
        DoomsdayLockPhase::KeepReady => assert(doomsday_lock_holds(trace, next)),
        DoomsdayLockPhase::BroadcastFunding => assert(doomsday_lock_holds(trace, next)),
        DoomsdayLockPhase::RecordFunding => assert(doomsday_lock_holds(trace, next)),
        DoomsdayLockPhase::KeepPrepared => assert(doomsday_lock_holds(trace, next)),
        DoomsdayLockPhase::Finished => assert(doomsday_lock_holds(trace, next)),
    }
}

/// What the lock of a submarine case has been told, it keeps: at every place of a trace each value
/// that the run holds is the one that the reply to the phase that asks for it gave, or the one that
/// the run started with.
pub proof fn law_doomsday_lock_keeps_what_it_was_told(
    trace: Seq<(DoomsdayLockRunView, ReplyView)>,
    last: int,
)
    requires
        is_doomsday_lock_trace(trace),
        0 <= last < trace.len(),
    ensures
        doomsday_lock_holds(trace, trace[last].0),
    decreases last,
{
    if last > 0 {
        let before = last - 1;
        law_doomsday_lock_keeps_what_it_was_told(trace, before);
        lemma_doomsday_lock_told_once(trace, before);
        assert(doomsday_lock_step(trace[before].0, trace[before].1) == Ok::<DoomsdayLockRunView, Seq<char>>(
            trace[before + 1].0,
        ));
        lemma_doomsday_lock_holds_on(trace, trace[before].0, trace[before].1);
    }
}

/// What the lock of a submarine case asks for in each phase, in terms of the replies before it: the
/// values in a request are those that the replies to the named phases gave, or those that the run
/// started with.
pub proof fn law_doomsday_lock_asks_with_what_it_was_told(
    trace: Seq<(DoomsdayLockRunView, ReplyView)>,
    last: int,
)
    requires
        is_doomsday_lock_trace(trace),
        0 <= last < trace.len(),
    ensures
        ({
            let start = trace[0].0;
            let payment_hash = doomsday_lock_told(trace, DoomsdayLockPhase::CreateInvoice)->Texts_0[0];
            let invoice = doomsday_lock_told(trace, DoomsdayLockPhase::CreateInvoice)->Texts_0[1];
            let contract = doomsday_lock_told(trace, DoomsdayLockPhase::PrepareOrder)->Session_contract;
            let funding_id = doomsday_lock_told(trace, DoomsdayLockPhase::TakeFunding)->Funding_id;
            let funding_hex = doomsday_lock_told(trace, DoomsdayLockPhase::TakeFunding)->Funding_hex;
            let refund_lock_height = terms_reading(contract, "source"@)->Ok_0.refund_lock_height;
            let action = doomsday_lock_action(trace[last].0);
            match trace[last].0.phase {
                DoomsdayLockPhase::CreateInvoice => action == ActionView::Perform(
                    Task::CreateInvoice,
                    seq![
                        start.case.invoice_text(),
                        decimal(OUTPUT_AMOUNT_SAT as nat),
                        "Immortal adversarial doomsday refund"@,
                        decimal(INVOICE_EXPIRY_SECONDS as nat),
                    ],
                ),
                DoomsdayLockPhase::FundWallet => action == ActionView::Perform(
                    Task::FundWallet,
                    seq![],
                ),
                DoomsdayLockPhase::PrepareOrder => action == ActionView::Perform(
                    Task::PrepareOrder,
                    seq![payment_hash, invoice],
                ),
                DoomsdayLockPhase::AwaitAccepted => action == ActionView::AwaitState("accepted"@),
                DoomsdayLockPhase::AwaitLockTerms => action == ActionView::AwaitState(
                    "lock_terms_ready"@,
                ),
                DoomsdayLockPhase::TakeFunding => action == ActionView::Perform(
                    Task::TakeFunding,
                    seq![],
                ),
                DoomsdayLockPhase::AuthorizeFunding => action == ActionView::Perform(
                    Task::AuthorizeFunding,
                    seq![invoice],
                ),
                DoomsdayLockPhase::KeepAuthorization => action == ActionView::Perform(
                    Task::KeepAuthorization,
                    seq![],
                ),
                DoomsdayLockPhase::SayVerified => action == ActionView::Say(
                    "requester_verification_passed"@,
                    no_members(),
                ),
                DoomsdayLockPhase::KeepReady => action == ActionView::Keep(
                    "funding_execution_ready"@,
                    effect_doc(funding_id),
                ),
                DoomsdayLockPhase::BroadcastFunding => action == ActionView::Perform(
                    Task::BroadcastBitcoin,
                    seq!["doomsday-funding"@, funding_hex, funding_id],
                ),
                DoomsdayLockPhase::RecordFunding => action == ActionView::Perform(
                    Task::RecordFundingEffect,
                    seq![funding_id, funding_hex, "text"@],
                ),
                DoomsdayLockPhase::KeepPrepared => action == ActionView::Keep(
                    "doomsday_prepared"@,
                    JsonView::Object(
                        no_members().insert("funding_transaction_id"@, text_doc(funding_id)).insert(
                            "refund_lock_height"@,
                            number_doc(refund_lock_height as u64),
                        ).insert("package_mode"@, text_doc("presigned"@)).insert(
                            "signed_before_contract"@,
                            JsonView::Bool(true),
                        ).insert("signed_before_funding"@, JsonView::Bool(true)),
                    ),
                ),
                DoomsdayLockPhase::Finished => action == ActionView::Finish,
            }
        }),
{
    law_doomsday_lock_keeps_what_it_was_told(trace, last);
}

/// What the lock of a submarine case reports at its end is what it was told on the way: each
/// identifier in the report is the one that the reply to the named phase gave, or one that the run
/// started with.
pub proof fn law_doomsday_lock_doc_names_what_it_was_told(
    trace: Seq<(DoomsdayLockRunView, ReplyView)>,
    last: int,
)
    requires
        is_doomsday_lock_trace(trace),
        0 <= last < trace.len(),
        trace[last].0.phase == DoomsdayLockPhase::Finished,
    ensures
        ({
            let start = trace[0].0;
            let order_id = doomsday_lock_told(trace, DoomsdayLockPhase::PrepareOrder)->Session_order_id;
            let contract = doomsday_lock_told(trace, DoomsdayLockPhase::PrepareOrder)->Session_contract;
            let funding_id = doomsday_lock_told(trace, DoomsdayLockPhase::TakeFunding)->Funding_id;
            let refund_lock_height = terms_reading(contract, "source"@)->Ok_0.refund_lock_height;
            doomsday_lock_doc(trace[last].0) == JsonView::Object(
                no_members().insert(
                    "schema"@,
                    text_doc("openagents.immortal.doomsday-prepared.v1"@),
                ).insert("case_id"@, text_doc(start.case.id())).insert("provider_pubkey"@, text_doc(start.provider_pubkey)).insert("order_id"@, text_doc(order_id)).insert("funding_transaction_id"@, text_doc(funding_id)).insert(
                    "refund_lock_height"@,
                    number_doc(refund_lock_height as u64),
                ).insert("package_mode"@, text_doc("presigned"@)).insert("signer_ref"@, JsonView::Null).insert(
                    "signed_before_contract"@,
                    JsonView::Bool(true),
                ).insert("signed_before_funding"@, JsonView::Bool(true)).insert(
                    "requester_process_exit"@,
                    JsonView::Bool(true),
                ),
            )
        }),
{
    law_doomsday_lock_keeps_what_it_was_told(trace, last);
}

/// The lock is broadcast only after the refund was found signed beforehand.
pub proof fn law_doomsday_lock_is_signed_first(
    trace: Seq<(DoomsdayLockRunView, ReplyView)>,
    last: int,
)
    requires
        is_doomsday_lock_trace(trace),
        0 <= last < trace.len(),
        trace[last].0.phase == DoomsdayLockPhase::BroadcastFunding,
    ensures
        exists|i: int|
            0 <= i < last && (#[trigger] trace[i]).0.phase == DoomsdayLockPhase::AuthorizeFunding &&
                (trace[i].1 matches ReplyView::Package { mode, document } && mode == "presigned"@ &&
                has_no_signer(document)),
{
    let i = lemma_milestone(
        trace,
        |run: DoomsdayLockRunView, reply: ReplyView| doomsday_lock_step(run, reply),
        |run: DoomsdayLockRunView| run.phase.rank(),
        6,
        last,
    );
    assert(trace[i].0.phase == DoomsdayLockPhase::AuthorizeFunding);
    assert(doomsday_lock_step(trace[i].0, trace[i].1) == Ok::<DoomsdayLockRunView,
        Seq<char>>(trace[i + 1].0));
}

/// The summary of a submarine case that is prepared.
pub open spec fn doomsday_lock_doc(run: DoomsdayLockRunView) -> JsonView {
    JsonView::Object(
        no_members().insert(
            "schema"@,
            text_doc("openagents.immortal.doomsday-prepared.v1"@),
        ).insert("case_id"@, text_doc(run.case.id())).insert(
            "provider_pubkey"@,
            text_doc(run.provider_pubkey),
        ).insert("order_id"@, text_doc(run.order_id)).insert(
            "funding_transaction_id"@,
            text_doc(run.funding_id),
        ).insert("refund_lock_height"@, number_doc(run.refund_lock_height as u64)).insert(
            "package_mode"@,
            text_doc("presigned"@),
        ).insert("signer_ref"@, JsonView::Null).insert(
            "signed_before_contract"@,
            JsonView::Bool(true),
        ).insert("signed_before_funding"@, JsonView::Bool(true)).insert(
            "requester_process_exit"@,
            JsonView::Bool(true),
        ),
    )
}

/// What the summary of a submarine case reads as: only two cases lock coins on Bitcoin.
pub open spec fn doomsday_lock_reading(run: DoomsdayLockRunView) -> Result<JsonView, Seq<char>> {
    match run.case {
        DoomsdayCase::SubmarineProviderGone | DoomsdayCase::KeylessEsploraBroadcast => Ok(
            doomsday_lock_doc(run),
        ),
        _ => Err("another case reached Bitcoin submarine preparation"@),
    }
}

impl DoomsdayLockRun {
    /// The summary of a submarine case that is prepared; nothing before it is over.
    pub fn prepared(&self) -> (summary: Option<Result<Json, String>>)
        ensures
            match summary {
                Some(summary) => self@.phase == DoomsdayLockPhase::Finished && told_json(summary)
                    == doomsday_lock_reading(self@),
                None => self@.phase != DoomsdayLockPhase::Finished,
            },
    {
        if self.phase == DoomsdayLockPhase::Finished {
            Some(self.prepared_document())
        } else {
            None
        }
    }

    fn prepared_document(&self) -> (summary: Result<Json, String>)
        ensures
            told_json(summary) == doomsday_lock_reading(self@),
    {
        match self.case {
            DoomsdayCase::SubmarineProviderGone | DoomsdayCase::KeylessEsploraBroadcast => {},
            _ => {
                return Err("another case reached Bitcoin submarine preparation".to_owned());
            },
        }
        Ok(
            Json::object(
                JsonObject::new().with_text(
                    "schema",
                    "openagents.immortal.doomsday-prepared.v1",
                ).with("case_id", Json::text(self.case.case_id())).with_text(
                    "provider_pubkey",
                    self.provider_pubkey.as_str(),
                ).with_text("order_id", self.order_id.as_str()).with_text(
                    "funding_transaction_id",
                    self.funding_id.as_str(),
                ).with_number("refund_lock_height", self.refund_lock_height as u64).with_text(
                    "package_mode",
                    "presigned",
                ).with("signer_ref", Json::null()).with_bool(
                    "signed_before_contract",
                    true,
                ).with_bool("signed_before_funding", true).with_bool(
                    "requester_process_exit",
                    true,
                ),
            ),
        )
    }
}

/// The phases of the lock of a Liquid submarine case, in their order.
#[derive(Clone, Copy, Debug, PartialEq, Eq, Structural)]
pub enum DoomsdayLiquidLockPhase {
    DiscoverOffering,
    CreateInvoice,
    PrepareOrder,
    TakeFunding,
    FinalizeNegotiation,
    AwaitAccepted,
    AwaitLockTerms,
    AuthorizeFunding,
    SayVerified,
    BroadcastFunding,
    RecordFunding,
    KeepPrepared,
    Finished,
}

impl DoomsdayLiquidLockPhase {
    /// The place of the phase in their order.
    pub open spec fn rank(self) -> int {
        match self {
            DoomsdayLiquidLockPhase::DiscoverOffering => 0,
            DoomsdayLiquidLockPhase::CreateInvoice => 1,
            DoomsdayLiquidLockPhase::PrepareOrder => 2,
            DoomsdayLiquidLockPhase::TakeFunding => 3,
            DoomsdayLiquidLockPhase::FinalizeNegotiation => 4,
            DoomsdayLiquidLockPhase::AwaitAccepted => 5,
            DoomsdayLiquidLockPhase::AwaitLockTerms => 6,
            DoomsdayLiquidLockPhase::AuthorizeFunding => 7,
            DoomsdayLiquidLockPhase::SayVerified => 8,
            DoomsdayLiquidLockPhase::BroadcastFunding => 9,
            DoomsdayLiquidLockPhase::RecordFunding => 10,
            DoomsdayLiquidLockPhase::KeepPrepared => 11,
            DoomsdayLiquidLockPhase::Finished => 12,
        }
    }
}

/// A Liquid submarine swap that is locked with its refund signed beforehand, and then left alone.
pub struct DoomsdayLiquidLockRun {
    pub phase: DoomsdayLiquidLockPhase,
    pub case: DoomsdayCase,
    pub provider_pubkey: String,
    pub invoice_amount_sat: u64,
    pub offering_id: String,
    pub payment_hash: String,
    pub invoice: String,
    pub journey_name: String,
    pub timelock: u32,
    pub order_id: String,
    pub contract: Json,
    pub funding_id: String,
    pub funding_output: u32,
    pub funding_hex: String,
}

/// A Liquid submarine swap that is locked with its refund signed beforehand, and then left alone.
#[verifier::ext_equal]
pub struct DoomsdayLiquidLockRunView {
    pub phase: DoomsdayLiquidLockPhase,
    pub case: DoomsdayCase,
    pub provider_pubkey: Seq<char>,
    pub invoice_amount_sat: u64,
    pub offering_id: Seq<char>,
    pub payment_hash: Seq<char>,
    pub invoice: Seq<char>,
    pub journey_name: Seq<char>,
    pub timelock: u32,
    pub order_id: Seq<char>,
    pub contract: JsonView,
    pub funding_id: Seq<char>,
    pub funding_output: u32,
    pub funding_hex: Seq<char>,
}

impl View for DoomsdayLiquidLockRun {
    type V = DoomsdayLiquidLockRunView;

    open spec fn view(&self) -> DoomsdayLiquidLockRunView {
        DoomsdayLiquidLockRunView {
            phase: self.phase,
            case: self.case,
            provider_pubkey: self.provider_pubkey@,
            invoice_amount_sat: self.invoice_amount_sat,
            offering_id: self.offering_id@,
            payment_hash: self.payment_hash@,
            invoice: self.invoice@,
            journey_name: self.journey_name@,
            timelock: self.timelock,
            order_id: self.order_id@,
            contract: self.contract@,
            funding_id: self.funding_id@,
            funding_output: self.funding_output,
            funding_hex: self.funding_hex@,
        }
    }
}

/// What the lock of a Liquid submarine case asks for next.
pub open spec fn doomsday_liquid_lock_action(run: DoomsdayLiquidLockRunView) -> ActionView {
    match run.phase {
        DoomsdayLiquidLockPhase::DiscoverOffering => ActionView::Perform(
            Task::DiscoverOffering,
            seq![],
        ),
        DoomsdayLiquidLockPhase::CreateInvoice => ActionView::Perform(
            Task::CreateInvoice,
            seq![
                run.case.invoice_text(),
                decimal(run.invoice_amount_sat as nat),
                "Immortal Liquid doomsday refund"@,
                decimal(INVOICE_EXPIRY_SECONDS as nat),
            ],
        ),
        DoomsdayLiquidLockPhase::PrepareOrder => ActionView::Perform(
            Task::PrepareOrder,
            seq![run.payment_hash, run.invoice],
        ),
        DoomsdayLiquidLockPhase::TakeFunding => ActionView::Perform(Task::TakeFunding, seq![]),
        DoomsdayLiquidLockPhase::FinalizeNegotiation => ActionView::Perform(
            Task::FinalizeNegotiation,
            seq![run.journey_name],
        ),
        DoomsdayLiquidLockPhase::AwaitAccepted => ActionView::AwaitState("accepted"@),
        DoomsdayLiquidLockPhase::AwaitLockTerms => ActionView::AwaitState("lock_terms_ready"@),
        DoomsdayLiquidLockPhase::AuthorizeFunding => ActionView::Perform(
            Task::AuthorizeFunding,
            seq![run.invoice],
        ),
        DoomsdayLiquidLockPhase::SayVerified => ActionView::Say(
            "requester_verification_passed"@,
            no_members(),
        ),
        DoomsdayLiquidLockPhase::BroadcastFunding => ActionView::Perform(
            Task::BroadcastFunding,
            seq!["liquid"@],
        ),
        DoomsdayLiquidLockPhase::RecordFunding => ActionView::Perform(
            Task::RecordFundingEffect,
            seq![run.funding_id, run.funding_hex, "hex-bytes"@],
        ),
        DoomsdayLiquidLockPhase::KeepPrepared => ActionView::Keep(
            "doomsday_prepared"@,
            JsonView::Object(
                no_members().insert("funding_transaction_id"@, text_doc(run.funding_id)).insert(
                    "refund_lock_height"@,
                    number_doc(run.timelock as u64),
                ).insert("package_mode"@, text_doc("presigned"@)).insert(
                    "signed_before_contract"@,
                    JsonView::Bool(true),
                ).insert("signed_before_funding"@, JsonView::Bool(true)).insert(
                    "offering_id"@,
                    text_doc(run.offering_id),
                ),
            ),
        ),
        DoomsdayLiquidLockPhase::Finished => ActionView::Finish,
    }
}

/// Where a reply takes the lock of a Liquid submarine case.
pub open spec fn doomsday_liquid_lock_step(
    run: DoomsdayLiquidLockRunView,
    reply: ReplyView,
) -> Result<
    DoomsdayLiquidLockRunView,
    Seq<char>,
> {
    match (run.phase, reply) {
        (DoomsdayLiquidLockPhase::DiscoverOffering, ReplyView::Record { id, pubkey, tags, content, .. }) => {
            if pubkey != run.provider_pubkey {
                Err("Liquid submarine doomsday discovered another provider"@)
            } else {
                Ok(
                    DoomsdayLiquidLockRunView {
                        phase: DoomsdayLiquidLockPhase::CreateInvoice,
                        offering_id: id,
                        ..run
                    },
                )
            }
        },
        (DoomsdayLiquidLockPhase::CreateInvoice, ReplyView::Texts(texts)) => {
            if texts.len() != 2 {
                Err(wrong_reply())
            } else {
                match fixed_reading(texts[0], "Liquid doomsday payment hash"@, 32) {
                    Err(message) => Err(message),
                    Ok(decoded) => Ok(
                        DoomsdayLiquidLockRunView {
                            phase: DoomsdayLiquidLockPhase::PrepareOrder,
                            payment_hash: texts[0],
                            invoice: texts[1],
                            ..run
                        },
                    ),
                }
            }
        },
        (DoomsdayLiquidLockPhase::PrepareOrder, ReplyView::LiquidOrder { journey, exit }) => match doomsday_name(
            run.case,
            journey,
        ) {
            Err(message) => Err(message),
            Ok(name) => {
                if !is_presigned_refund(exit) {
                    Err("Liquid doomsday refund is not an exact pre-signed package"@)
                } else {
                    Ok(
                        DoomsdayLiquidLockRunView {
                            phase: DoomsdayLiquidLockPhase::TakeFunding,
                            journey_name: name,
                            timelock: exit.timelock,
                            ..run
                        },
                    )
                }
            },
        },
        (DoomsdayLiquidLockPhase::TakeFunding, ReplyView::Funding { receipt, id, output_index, hex }) => Ok(
            DoomsdayLiquidLockRunView {
                phase: DoomsdayLiquidLockPhase::FinalizeNegotiation,
                funding_id: id,
                funding_output: output_index,
                funding_hex: hex,
                ..run
            },
        ),
        (DoomsdayLiquidLockPhase::TakeFunding, ReplyView::Done) => Err(
            "Liquid doomsday has no source funding"@,
        ),
        (DoomsdayLiquidLockPhase::FinalizeNegotiation, ReplyView::Session { order_id, contract }) => Ok(
            DoomsdayLiquidLockRunView {
                phase: DoomsdayLiquidLockPhase::AwaitAccepted,
                order_id: order_id,
                contract: contract,
                ..run
            },
        ),
        (DoomsdayLiquidLockPhase::AwaitAccepted, ReplyView::Record { .. }) => Ok(
            DoomsdayLiquidLockRunView { phase: DoomsdayLiquidLockPhase::AwaitLockTerms, ..run },
        ),
        (DoomsdayLiquidLockPhase::AwaitLockTerms, ReplyView::Record { .. }) => Ok(
            DoomsdayLiquidLockRunView { phase: DoomsdayLiquidLockPhase::AuthorizeFunding, ..run },
        ),
        (DoomsdayLiquidLockPhase::AuthorizeFunding, ReplyView::Done) => Ok(
            DoomsdayLiquidLockRunView { phase: DoomsdayLiquidLockPhase::SayVerified, ..run },
        ),
        (DoomsdayLiquidLockPhase::SayVerified, ReplyView::Record { .. }) => Ok(
            DoomsdayLiquidLockRunView { phase: DoomsdayLiquidLockPhase::BroadcastFunding, ..run },
        ),
        (DoomsdayLiquidLockPhase::BroadcastFunding, ReplyView::Texts(texts)) => {
            if texts.len() != 1 {
                Err(wrong_reply())
            } else if texts[0] != run.funding_id {
                Err("Liquid doomsday broadcast another funding transaction"@)
            } else {
                Ok(
                    DoomsdayLiquidLockRunView {
                        phase: DoomsdayLiquidLockPhase::RecordFunding,
                        ..run
                    },
                )
            }
        },
        (DoomsdayLiquidLockPhase::RecordFunding, ReplyView::Done) => Ok(
            DoomsdayLiquidLockRunView { phase: DoomsdayLiquidLockPhase::KeepPrepared, ..run },
        ),
        (DoomsdayLiquidLockPhase::KeepPrepared, ReplyView::Done) => Ok(
            DoomsdayLiquidLockRunView { phase: DoomsdayLiquidLockPhase::Finished, ..run },
        ),
        _ => Err(wrong_reply()),
    }
}

impl DoomsdayLiquidLockRun {
    /// The lock of a Liquid submarine case before its first action.
    pub fn new(
        case: DoomsdayCase,
        provider_pubkey: &str,
        invoice_amount_sat: u64,
    ) -> (run: DoomsdayLiquidLockRun)
        ensures
            run@.phase == DoomsdayLiquidLockPhase::DiscoverOffering,
            run@.case == case,
            run@.provider_pubkey == provider_pubkey@,
            run@.invoice_amount_sat == invoice_amount_sat,
            run@.offering_id == Seq::<char>::empty(),
            run@.payment_hash == Seq::<char>::empty(),
            run@.invoice == Seq::<char>::empty(),
            run@.journey_name == Seq::<char>::empty(),
            run@.timelock == 0,
            run@.order_id == Seq::<char>::empty(),
            run@.contract == JsonView::Null,
            run@.funding_id == Seq::<char>::empty(),
            run@.funding_output == 0,
            run@.funding_hex == Seq::<char>::empty(),
    {
        DoomsdayLiquidLockRun {
            phase: DoomsdayLiquidLockPhase::DiscoverOffering,
            case,
            provider_pubkey: provider_pubkey.to_owned(),
            invoice_amount_sat,
            offering_id: String::new(),
            payment_hash: String::new(),
            invoice: String::new(),
            journey_name: String::new(),
            timelock: 0,
            order_id: String::new(),
            contract: Json::null(),
            funding_id: String::new(),
            funding_output: 0,
            funding_hex: String::new(),
        }
    }

    /// What the journey asks for next.
    pub fn action(&self) -> (action: Action)
        ensures
            action@ == doomsday_liquid_lock_action(self@),
    {
        match self.phase {
            DoomsdayLiquidLockPhase::DiscoverOffering => perform(Task::DiscoverOffering),
            DoomsdayLiquidLockPhase::CreateInvoice => perform_with_four(
                Task::CreateInvoice,
                self.case.invoice_label(),
                decimal_text(self.invoice_amount_sat).as_str(),
                "Immortal Liquid doomsday refund",
                decimal_text(INVOICE_EXPIRY_SECONDS).as_str(),
            ),
            DoomsdayLiquidLockPhase::PrepareOrder => perform_with_two(
                Task::PrepareOrder,
                self.payment_hash.as_str(),
                self.invoice.as_str(),
            ),
            DoomsdayLiquidLockPhase::TakeFunding => perform(Task::TakeFunding),
            DoomsdayLiquidLockPhase::FinalizeNegotiation => perform_with(
                Task::FinalizeNegotiation,
                self.journey_name.as_str(),
            ),
            DoomsdayLiquidLockPhase::AwaitAccepted => Action::AwaitState("accepted"),
            DoomsdayLiquidLockPhase::AwaitLockTerms => Action::AwaitState("lock_terms_ready"),
            DoomsdayLiquidLockPhase::AuthorizeFunding => perform_with(
                Task::AuthorizeFunding,
                self.invoice.as_str(),
            ),
            DoomsdayLiquidLockPhase::SayVerified => Action::Say(
                "requester_verification_passed",
                JsonObject::new(),
            ),
            DoomsdayLiquidLockPhase::BroadcastFunding => perform_with(
                Task::BroadcastFunding,
                "liquid",
            ),
            DoomsdayLiquidLockPhase::RecordFunding => perform_with_three(
                Task::RecordFundingEffect,
                self.funding_id.as_str(),
                self.funding_hex.as_str(),
                "hex-bytes",
            ),
            DoomsdayLiquidLockPhase::KeepPrepared => Action::Keep(
                "doomsday_prepared",
                Json::object(
                    JsonObject::new().with_text(
                        "funding_transaction_id",
                        self.funding_id.as_str(),
                    ).with_number("refund_lock_height", self.timelock as u64).with_text(
                        "package_mode",
                        "presigned",
                    ).with_bool("signed_before_contract", true).with_bool(
                        "signed_before_funding",
                        true,
                    ).with_text("offering_id", self.offering_id.as_str()),
                ),
            ),
            DoomsdayLiquidLockPhase::Finished => Action::Finish,
        }
    }

    /// Takes a reply: the journey goes on to its next phase, or ends with a message.
    #[verifier::rlimit(60)]
    pub fn advance(&mut self, reply: Reply) -> (moved: Result<(), String>)
        ensures
            match moved {
                Ok(_) => doomsday_liquid_lock_step(
                    old(self)@,
                    reply@,
                ) == Ok::<DoomsdayLiquidLockRunView, Seq<char>>(final(self)@),
                Err(message) => {
                    &&& doomsday_liquid_lock_step(
                        old(self)@,
                        reply@,
                    ) == Err::<DoomsdayLiquidLockRunView, Seq<char>>(message@)
                    &&& final(self)@ == old(self)@
                },
            },
    {
        match (self.phase, reply) {
            (DoomsdayLiquidLockPhase::DiscoverOffering, Reply::Record(event)) => {
                if !same_text(event.pubkey.as_str(), self.provider_pubkey.as_str()) {
                    return Err("Liquid submarine doomsday discovered another provider".to_owned());
                }
                self.offering_id = event.id;
                self.phase = DoomsdayLiquidLockPhase::CreateInvoice;
                Ok(())
            },
            (DoomsdayLiquidLockPhase::CreateInvoice, Reply::Texts(texts)) => {
                if texts.len() != 2 {
                    return Err(wrong_reply_text());
                }
                let decoded: Vec<u8> = decode_fixed_hex::<32>(
                    texts[0].as_str(),
                    "Liquid doomsday payment hash",
                )?;
                self.payment_hash = texts[0].clone();
                self.invoice = texts[1].clone();
                self.phase = DoomsdayLiquidLockPhase::PrepareOrder;
                Ok(())
            },
            (DoomsdayLiquidLockPhase::PrepareOrder, Reply::LiquidOrder { journey, exit }) => {
                let name: String = liquid_doomsday_journey_name(
                    self.case,
                    journey.as_str(),
                )?.to_owned();
                if !exit.is_presigned_refund() {
                    return Err(
                        "Liquid doomsday refund is not an exact pre-signed package".to_owned(),
                    );
                }
                self.journey_name = name;
                self.timelock = exit.timelock;
                self.phase = DoomsdayLiquidLockPhase::TakeFunding;
                Ok(())
            },
            (DoomsdayLiquidLockPhase::TakeFunding, Reply::Funding { receipt: _, id, output_index, hex }) => {
                self.funding_id = id;
                self.funding_output = output_index;
                self.funding_hex = hex;
                self.phase = DoomsdayLiquidLockPhase::FinalizeNegotiation;
                Ok(())
            },
            (DoomsdayLiquidLockPhase::TakeFunding, Reply::Done) => {
                Err("Liquid doomsday has no source funding".to_owned())
            },
            (DoomsdayLiquidLockPhase::FinalizeNegotiation, Reply::Session { order_id, contract }) => {
                self.order_id = order_id;
                self.contract = contract;
                self.phase = DoomsdayLiquidLockPhase::AwaitAccepted;
                Ok(())
            },
            (DoomsdayLiquidLockPhase::AwaitAccepted, Reply::Record(_)) => {
                self.phase = DoomsdayLiquidLockPhase::AwaitLockTerms;
                Ok(())
            },
            (DoomsdayLiquidLockPhase::AwaitLockTerms, Reply::Record(_)) => {
                self.phase = DoomsdayLiquidLockPhase::AuthorizeFunding;
                Ok(())
            },
            (DoomsdayLiquidLockPhase::AuthorizeFunding, Reply::Done) => {
                self.phase = DoomsdayLiquidLockPhase::SayVerified;
                Ok(())
            },
            (DoomsdayLiquidLockPhase::SayVerified, Reply::Record(_)) => {
                self.phase = DoomsdayLiquidLockPhase::BroadcastFunding;
                Ok(())
            },
            (DoomsdayLiquidLockPhase::BroadcastFunding, Reply::Texts(texts)) => {
                if texts.len() != 1 {
                    return Err(wrong_reply_text());
                }
                if !same_text(texts[0].as_str(), self.funding_id.as_str()) {
                    return Err("Liquid doomsday broadcast another funding transaction".to_owned());
                }
                self.phase = DoomsdayLiquidLockPhase::RecordFunding;
                Ok(())
            },
            (DoomsdayLiquidLockPhase::RecordFunding, Reply::Done) => {
                self.phase = DoomsdayLiquidLockPhase::KeepPrepared;
                Ok(())
            },
            (DoomsdayLiquidLockPhase::KeepPrepared, Reply::Done) => {
                self.phase = DoomsdayLiquidLockPhase::Finished;
                Ok(())
            },
            _ => Err(wrong_reply_text()),
        }
    }
}

/// Whether each entry of a trace leads to the one after it, from the first phase on.
pub open spec fn is_doomsday_liquid_lock_trace(
    trace: Seq<(DoomsdayLiquidLockRunView, ReplyView)>,
) -> bool {
    &&& trace.len() > 0
    &&& trace[0].0.phase == DoomsdayLiquidLockPhase::DiscoverOffering
    &&& forall|i: int|
        0 <= i < trace.len() - 1 ==> doomsday_liquid_lock_step(
            (#[trigger] trace[i]).0,
            trace[i].1,
        ) == Ok::<
            DoomsdayLiquidLockRunView,
            Seq<char>,
        >(trace[i + 1].0)
}

/// Each reply takes the lock of a Liquid submarine case forward, never back and never in place.
pub proof fn law_doomsday_liquid_lock_moves_forward(
    run: DoomsdayLiquidLockRunView,
    reply: ReplyView,
)
    requires
        doomsday_liquid_lock_step(run, reply) is Ok,
    ensures
        run.phase.rank() < doomsday_liquid_lock_step(run, reply)->Ok_0.phase.rank(),
{
}

/// Which replies take the lock of a Liquid submarine case on, and to which phase: in each phase
/// exactly the replies that pass every check of that phase, and no others.
pub proof fn law_doomsday_liquid_lock_goes_on_only_when_answered(
    run: DoomsdayLiquidLockRunView,
    reply: ReplyView,
)
    ensures
        ({
            let next = doomsday_liquid_lock_step(run, reply);
            match run.phase {
                DoomsdayLiquidLockPhase::DiscoverOffering => {
                    &&& next is Ok <==> {
                        &&& reply is Record
                        &&& reply->Record_pubkey == run.provider_pubkey
                    }
                    &&& next is Ok ==> next->Ok_0.phase == DoomsdayLiquidLockPhase::CreateInvoice
                },
                DoomsdayLiquidLockPhase::CreateInvoice => {
                    &&& next is Ok <==> {
                        &&& reply is Texts
                        &&& reply->Texts_0.len() == 2
                        &&& fixed_reading(
                            reply->Texts_0[0],
                            "Liquid doomsday payment hash"@,
                            32,
                        ) is Ok
                    }
                    &&& next is Ok ==> next->Ok_0.phase == DoomsdayLiquidLockPhase::PrepareOrder
                },
                DoomsdayLiquidLockPhase::PrepareOrder => {
                    &&& next is Ok <==> {
                        &&& reply is LiquidOrder
                        &&& doomsday_name(run.case, reply->LiquidOrder_journey) is Ok
                        &&& is_presigned_refund(reply->LiquidOrder_exit)
                    }
                    &&& next is Ok ==> next->Ok_0.phase == DoomsdayLiquidLockPhase::TakeFunding
                },
                DoomsdayLiquidLockPhase::TakeFunding => {
                    &&& next is Ok <==> reply is Funding
                    &&& next is Ok ==> next->Ok_0.phase == DoomsdayLiquidLockPhase::FinalizeNegotiation
                },
                DoomsdayLiquidLockPhase::FinalizeNegotiation => {
                    &&& next is Ok <==> reply is Session
                    &&& next is Ok ==> next->Ok_0.phase == DoomsdayLiquidLockPhase::AwaitAccepted
                },
                DoomsdayLiquidLockPhase::AwaitAccepted => {
                    &&& next is Ok <==> reply is Record
                    &&& next is Ok ==> next->Ok_0.phase == DoomsdayLiquidLockPhase::AwaitLockTerms
                },
                DoomsdayLiquidLockPhase::AwaitLockTerms => {
                    &&& next is Ok <==> reply is Record
                    &&& next is Ok ==> next->Ok_0.phase == DoomsdayLiquidLockPhase::AuthorizeFunding
                },
                DoomsdayLiquidLockPhase::AuthorizeFunding => {
                    &&& next is Ok <==> reply is Done
                    &&& next is Ok ==> next->Ok_0.phase == DoomsdayLiquidLockPhase::SayVerified
                },
                DoomsdayLiquidLockPhase::SayVerified => {
                    &&& next is Ok <==> reply is Record
                    &&& next is Ok ==> next->Ok_0.phase == DoomsdayLiquidLockPhase::BroadcastFunding
                },
                DoomsdayLiquidLockPhase::BroadcastFunding => {
                    &&& next is Ok <==> {
                        &&& reply is Texts
                        &&& reply->Texts_0.len() == 1
                        &&& reply->Texts_0[0] == run.funding_id
                    }
                    &&& next is Ok ==> next->Ok_0.phase == DoomsdayLiquidLockPhase::RecordFunding
                },
                DoomsdayLiquidLockPhase::RecordFunding => {
                    &&& next is Ok <==> reply is Done
                    &&& next is Ok ==> next->Ok_0.phase == DoomsdayLiquidLockPhase::KeepPrepared
                },
                DoomsdayLiquidLockPhase::KeepPrepared => {
                    &&& next is Ok <==> reply is Done
                    &&& next is Ok ==> next->Ok_0.phase == DoomsdayLiquidLockPhase::Finished
                },
                DoomsdayLiquidLockPhase::Finished => next is Err,
            }
        }),
{
}

/// The reply that a trace of the lock of a Liquid submarine case holds for a phase.
pub open spec fn doomsday_liquid_lock_told(
    trace: Seq<(DoomsdayLiquidLockRunView, ReplyView)>,
    phase: DoomsdayLiquidLockPhase,
) -> ReplyView {
    trace[choose|i: int| 0 <= i < trace.len() && (#[trigger] trace[i]).0.phase == phase].1
}

/// The values that a run of the lock of a Liquid submarine case holds, by the replies that gave
/// them: each stays as the reply to one phase gave it, or as the run started with it.
pub open spec fn doomsday_liquid_lock_holds(
    trace: Seq<(DoomsdayLiquidLockRunView, ReplyView)>,
    run: DoomsdayLiquidLockRunView,
) -> bool {
    let start = trace[0].0;
    let offering_id = doomsday_liquid_lock_told(trace, DoomsdayLiquidLockPhase::DiscoverOffering)->Record_id;
    let payment_hash = doomsday_liquid_lock_told(trace, DoomsdayLiquidLockPhase::CreateInvoice)->Texts_0[0];
    let invoice = doomsday_liquid_lock_told(trace, DoomsdayLiquidLockPhase::CreateInvoice)->Texts_0[1];
    let journey_name = doomsday_name(
        start.case,
        doomsday_liquid_lock_told(
            trace,
            DoomsdayLiquidLockPhase::PrepareOrder,
        )->LiquidOrder_journey,
    )->Ok_0;
    let timelock = doomsday_liquid_lock_told(
        trace,
        DoomsdayLiquidLockPhase::PrepareOrder,
    )->LiquidOrder_exit.timelock;
    let funding_id = doomsday_liquid_lock_told(trace, DoomsdayLiquidLockPhase::TakeFunding)->Funding_id;
    let funding_output = doomsday_liquid_lock_told(trace, DoomsdayLiquidLockPhase::TakeFunding)->Funding_output_index;
    let funding_hex = doomsday_liquid_lock_told(trace, DoomsdayLiquidLockPhase::TakeFunding)->Funding_hex;
    let order_id = doomsday_liquid_lock_told(
        trace,
        DoomsdayLiquidLockPhase::FinalizeNegotiation,
    )->Session_order_id;
    let contract = doomsday_liquid_lock_told(
        trace,
        DoomsdayLiquidLockPhase::FinalizeNegotiation,
    )->Session_contract;
    &&& run.case == start.case
    &&& run.provider_pubkey == start.provider_pubkey
    &&& run.invoice_amount_sat == start.invoice_amount_sat
    &&& run.phase.rank() > DoomsdayLiquidLockPhase::DiscoverOffering.rank()
        ==> run.offering_id == offering_id
    &&& run.phase.rank() > DoomsdayLiquidLockPhase::CreateInvoice.rank()
        ==> run.payment_hash == payment_hash
    &&& run.phase.rank() > DoomsdayLiquidLockPhase::CreateInvoice.rank() ==> run.invoice == invoice
    &&& run.phase.rank() > DoomsdayLiquidLockPhase::PrepareOrder.rank()
        ==> run.journey_name == journey_name
    &&& run.phase.rank() > DoomsdayLiquidLockPhase::PrepareOrder.rank() ==> run.timelock == timelock
    &&& run.phase.rank() > DoomsdayLiquidLockPhase::FinalizeNegotiation.rank()
        ==> run.order_id == order_id
    &&& run.phase.rank() > DoomsdayLiquidLockPhase::FinalizeNegotiation.rank()
        ==> run.contract == contract
    &&& run.phase.rank() > DoomsdayLiquidLockPhase::TakeFunding.rank()
        ==> run.funding_id == funding_id
    &&& run.phase.rank() > DoomsdayLiquidLockPhase::TakeFunding.rank()
        ==> run.funding_output == funding_output
    &&& run.phase.rank() > DoomsdayLiquidLockPhase::TakeFunding.rank()
        ==> run.funding_hex == funding_hex
}

/// No phase of the lock of a Liquid submarine case comes twice in a trace.
proof fn lemma_doomsday_liquid_lock_told_once(
    trace: Seq<(DoomsdayLiquidLockRunView, ReplyView)>,
    place: int,
)
    requires
        is_doomsday_liquid_lock_trace(trace),
        0 <= place < trace.len(),
    ensures
        doomsday_liquid_lock_told(trace, trace[place].0.phase) == trace[place].1,
{
    let phase = trace[place].0.phase;
    let other = choose|i: int| 0 <= i < trace.len() && (#[trigger] trace[i]).0.phase == phase;
    assert(trace[place].0.phase == phase);
    if other != place {
        let (early, late) = if other < place {
            (other, place)
        } else {
            (place, other)
        };
        assert forall|run: DoomsdayLiquidLockRunView, reply: ReplyView|
            (#[trigger] doomsday_liquid_lock_step(run, reply)) is Ok implies run.phase.rank() < doomsday_liquid_lock_step(
            run,
            reply,
        )->Ok_0.phase.rank() by {
            law_doomsday_liquid_lock_moves_forward(run, reply);
        }
        lemma_ranks_rise(
            trace,
            |run: DoomsdayLiquidLockRunView, reply: ReplyView| doomsday_liquid_lock_step(run, reply),
            |run: DoomsdayLiquidLockRunView| run.phase.rank(),
            early,
            late,
        );
    }
}

/// A reply keeps what the lock of a Liquid submarine case holds, and adds what it tells.
proof fn lemma_doomsday_liquid_lock_holds_on(
    trace: Seq<(DoomsdayLiquidLockRunView, ReplyView)>,
    run: DoomsdayLiquidLockRunView,
    reply: ReplyView,
)
    requires
        doomsday_liquid_lock_holds(trace, run),
        doomsday_liquid_lock_told(trace, run.phase) == reply,
        doomsday_liquid_lock_step(run, reply) is Ok,
    ensures
        doomsday_liquid_lock_holds(trace, doomsday_liquid_lock_step(run, reply)->Ok_0),
{
    let next = doomsday_liquid_lock_step(run, reply)->Ok_0;
    match run.phase {
        DoomsdayLiquidLockPhase::DiscoverOffering => {
            assert(doomsday_liquid_lock_holds(trace, next))
        },
        DoomsdayLiquidLockPhase::CreateInvoice => assert(doomsday_liquid_lock_holds(trace, next)),
        DoomsdayLiquidLockPhase::PrepareOrder => assert(doomsday_liquid_lock_holds(trace, next)),
        DoomsdayLiquidLockPhase::TakeFunding => assert(doomsday_liquid_lock_holds(trace, next)),
        DoomsdayLiquidLockPhase::FinalizeNegotiation => {
            assert(doomsday_liquid_lock_holds(trace, next))
        },
        DoomsdayLiquidLockPhase::AwaitAccepted => assert(doomsday_liquid_lock_holds(trace, next)),
        DoomsdayLiquidLockPhase::AwaitLockTerms => assert(doomsday_liquid_lock_holds(trace, next)),
        DoomsdayLiquidLockPhase::AuthorizeFunding => {
            assert(doomsday_liquid_lock_holds(trace, next))
        },
        DoomsdayLiquidLockPhase::SayVerified => assert(doomsday_liquid_lock_holds(trace, next)),
        DoomsdayLiquidLockPhase::BroadcastFunding => {
            assert(doomsday_liquid_lock_holds(trace, next))
        },
        DoomsdayLiquidLockPhase::RecordFunding => assert(doomsday_liquid_lock_holds(trace, next)),
        DoomsdayLiquidLockPhase::KeepPrepared => assert(doomsday_liquid_lock_holds(trace, next)),
        DoomsdayLiquidLockPhase::Finished => assert(doomsday_liquid_lock_holds(trace, next)),
    }
}

/// What the lock of a Liquid submarine case has been told, it keeps: at every place of a trace each
/// value that the run holds is the one that the reply to the phase that asks for it gave, or the
/// one that the run started with.
pub proof fn law_doomsday_liquid_lock_keeps_what_it_was_told(
    trace: Seq<(DoomsdayLiquidLockRunView, ReplyView)>,
    last: int,
)
    requires
        is_doomsday_liquid_lock_trace(trace),
        0 <= last < trace.len(),
    ensures
        doomsday_liquid_lock_holds(trace, trace[last].0),
    decreases last,
{
    if last > 0 {
        let before = last - 1;
        law_doomsday_liquid_lock_keeps_what_it_was_told(trace, before);
        lemma_doomsday_liquid_lock_told_once(trace, before);
        assert(doomsday_liquid_lock_step(trace[before].0, trace[before].1) == Ok::<DoomsdayLiquidLockRunView, Seq<char>>(
            trace[before + 1].0,
        ));
        lemma_doomsday_liquid_lock_holds_on(trace, trace[before].0, trace[before].1);
    }
}

/// What the lock of a Liquid submarine case asks for in each phase, in terms of the replies before
/// it: the values in a request are those that the replies to the named phases gave, or those that
/// the run started with.
pub proof fn law_doomsday_liquid_lock_asks_with_what_it_was_told(
    trace: Seq<(DoomsdayLiquidLockRunView, ReplyView)>,
    last: int,
)
    requires
        is_doomsday_liquid_lock_trace(trace),
        0 <= last < trace.len(),
    ensures
        ({
            let start = trace[0].0;
            let offering_id = doomsday_liquid_lock_told(trace, DoomsdayLiquidLockPhase::DiscoverOffering)->Record_id;
            let payment_hash = doomsday_liquid_lock_told(trace, DoomsdayLiquidLockPhase::CreateInvoice)->Texts_0[0];
            let invoice = doomsday_liquid_lock_told(trace, DoomsdayLiquidLockPhase::CreateInvoice)->Texts_0[1];
            let journey_name = doomsday_name(
                start.case,
                doomsday_liquid_lock_told(
                    trace,
                    DoomsdayLiquidLockPhase::PrepareOrder,
                )->LiquidOrder_journey,
            )->Ok_0;
            let timelock = doomsday_liquid_lock_told(
                trace,
                DoomsdayLiquidLockPhase::PrepareOrder,
            )->LiquidOrder_exit.timelock;
            let funding_id = doomsday_liquid_lock_told(trace, DoomsdayLiquidLockPhase::TakeFunding)->Funding_id;
            let funding_hex = doomsday_liquid_lock_told(trace, DoomsdayLiquidLockPhase::TakeFunding)->Funding_hex;
            let action = doomsday_liquid_lock_action(trace[last].0);
            match trace[last].0.phase {
                DoomsdayLiquidLockPhase::DiscoverOffering => action == ActionView::Perform(
                    Task::DiscoverOffering,
                    seq![],
                ),
                DoomsdayLiquidLockPhase::CreateInvoice => action == ActionView::Perform(
                    Task::CreateInvoice,
                    seq![
                        start.case.invoice_text(),
                        decimal(start.invoice_amount_sat as nat),
                        "Immortal Liquid doomsday refund"@,
                        decimal(INVOICE_EXPIRY_SECONDS as nat),
                    ],
                ),
                DoomsdayLiquidLockPhase::PrepareOrder => action == ActionView::Perform(
                    Task::PrepareOrder,
                    seq![payment_hash, invoice],
                ),
                DoomsdayLiquidLockPhase::TakeFunding => action == ActionView::Perform(
                    Task::TakeFunding,
                    seq![],
                ),
                DoomsdayLiquidLockPhase::FinalizeNegotiation => action == ActionView::Perform(
                    Task::FinalizeNegotiation,
                    seq![journey_name],
                ),
                DoomsdayLiquidLockPhase::AwaitAccepted => action == ActionView::AwaitState(
                    "accepted"@,
                ),
                DoomsdayLiquidLockPhase::AwaitLockTerms => action == ActionView::AwaitState(
                    "lock_terms_ready"@,
                ),
                DoomsdayLiquidLockPhase::AuthorizeFunding => action == ActionView::Perform(
                    Task::AuthorizeFunding,
                    seq![invoice],
                ),
                DoomsdayLiquidLockPhase::SayVerified => action == ActionView::Say(
                    "requester_verification_passed"@,
                    no_members(),
                ),
                DoomsdayLiquidLockPhase::BroadcastFunding => action == ActionView::Perform(
                    Task::BroadcastFunding,
                    seq!["liquid"@],
                ),
                DoomsdayLiquidLockPhase::RecordFunding => action == ActionView::Perform(
                    Task::RecordFundingEffect,
                    seq![funding_id, funding_hex, "hex-bytes"@],
                ),
                DoomsdayLiquidLockPhase::KeepPrepared => action == ActionView::Keep(
                    "doomsday_prepared"@,
                    JsonView::Object(
                        no_members().insert("funding_transaction_id"@, text_doc(funding_id)).insert(
                            "refund_lock_height"@,
                            number_doc(timelock as u64),
                        ).insert("package_mode"@, text_doc("presigned"@)).insert(
                            "signed_before_contract"@,
                            JsonView::Bool(true),
                        ).insert(
                            "signed_before_funding"@,
                            JsonView::Bool(true),
                        ).insert("offering_id"@, text_doc(offering_id)),
                    ),
                ),
                DoomsdayLiquidLockPhase::Finished => action == ActionView::Finish,
            }
        }),
{
    law_doomsday_liquid_lock_keeps_what_it_was_told(trace, last);
}

/// What the lock of a Liquid submarine case reports at its end is what it was told on the way: each
/// identifier in the report is the one that the reply to the named phase gave, or one that the run
/// started with.
pub proof fn law_doomsday_liquid_lock_doc_names_what_it_was_told(
    trace: Seq<(DoomsdayLiquidLockRunView, ReplyView)>,
    last: int,
)
    requires
        is_doomsday_liquid_lock_trace(trace),
        0 <= last < trace.len(),
        trace[last].0.phase == DoomsdayLiquidLockPhase::Finished,
    ensures
        ({
            let start = trace[0].0;
            let timelock = doomsday_liquid_lock_told(
                trace,
                DoomsdayLiquidLockPhase::PrepareOrder,
            )->LiquidOrder_exit.timelock;
            let funding_id = doomsday_liquid_lock_told(trace, DoomsdayLiquidLockPhase::TakeFunding)->Funding_id;
            let order_id = doomsday_liquid_lock_told(
                trace,
                DoomsdayLiquidLockPhase::FinalizeNegotiation,
            )->Session_order_id;
            doomsday_liquid_lock_doc(trace[last].0) == JsonView::Object(
                no_members().insert(
                    "schema"@,
                    text_doc("openagents.immortal.doomsday-prepared.v1"@),
                ).insert("case_id"@, text_doc(start.case.id())).insert(
                    "provider_pubkey"@,
                    text_doc(start.provider_pubkey),
                ).insert("order_id"@, text_doc(order_id)).insert("funding_transaction_id"@, text_doc(funding_id)).insert(
                    "refund_lock_height"@,
                    number_doc(timelock as u64),
                ).insert("package_mode"@, text_doc("presigned"@)).insert("signer_ref"@, JsonView::Null).insert(
                    "signed_before_contract"@,
                    JsonView::Bool(true),
                ).insert("signed_before_funding"@, JsonView::Bool(true)).insert(
                    "requester_process_exit"@,
                    JsonView::Bool(true),
                ),
            )
        }),
{
    law_doomsday_liquid_lock_keeps_what_it_was_told(trace, last);
}

/// The lock is broadcast only after the refund was found signed beforehand.
pub proof fn law_doomsday_liquid_lock_is_signed_first(
    trace: Seq<(DoomsdayLiquidLockRunView, ReplyView)>,
    last: int,
)
    requires
        is_doomsday_liquid_lock_trace(trace),
        0 <= last < trace.len(),
        trace[last].0.phase == DoomsdayLiquidLockPhase::BroadcastFunding,
    ensures
        exists|i: int|
            0 <= i < last && (#[trigger] trace[i]).0.phase == DoomsdayLiquidLockPhase::PrepareOrder
                && (trace[i].1 matches ReplyView::LiquidOrder { exit, .. } &&
                is_presigned_refund(exit)),
{
    let i = lemma_milestone(
        trace,
        |run: DoomsdayLiquidLockRunView, reply: ReplyView| doomsday_liquid_lock_step(run, reply),
        |run: DoomsdayLiquidLockRunView| run.phase.rank(),
        2,
        last,
    );
    assert(trace[i].0.phase == DoomsdayLiquidLockPhase::PrepareOrder);
    assert(doomsday_liquid_lock_step(trace[i].0, trace[i].1) == Ok::<DoomsdayLiquidLockRunView,
        Seq<char>>(trace[i + 1].0));
}

/// The lock is broadcast only after the client has authorized it.
pub proof fn law_doomsday_liquid_lock_is_authorized(
    trace: Seq<(DoomsdayLiquidLockRunView, ReplyView)>,
    last: int,
)
    requires
        is_doomsday_liquid_lock_trace(trace),
        0 <= last < trace.len(),
        trace[last].0.phase == DoomsdayLiquidLockPhase::BroadcastFunding,
    ensures
        exists|i: int|
            0 <= i < last && (#[trigger] trace[i]).0.phase ==
                DoomsdayLiquidLockPhase::AuthorizeFunding && trace[i].1 == ReplyView::Done,
{
    let i = lemma_milestone(
        trace,
        |run: DoomsdayLiquidLockRunView, reply: ReplyView| doomsday_liquid_lock_step(run, reply),
        |run: DoomsdayLiquidLockRunView| run.phase.rank(),
        7,
        last,
    );
    assert(trace[i].0.phase == DoomsdayLiquidLockPhase::AuthorizeFunding);
    assert(doomsday_liquid_lock_step(trace[i].0, trace[i].1) == Ok::<DoomsdayLiquidLockRunView,
        Seq<char>>(trace[i + 1].0));
}

/// The summary of a Liquid submarine case that is prepared.
pub open spec fn doomsday_liquid_lock_doc(run: DoomsdayLiquidLockRunView) -> JsonView {
    JsonView::Object(
        no_members().insert(
            "schema"@,
            text_doc("openagents.immortal.doomsday-prepared.v1"@),
        ).insert("case_id"@, text_doc(run.case.id())).insert(
            "provider_pubkey"@,
            text_doc(run.provider_pubkey),
        ).insert("order_id"@, text_doc(run.order_id)).insert(
            "funding_transaction_id"@,
            text_doc(run.funding_id),
        ).insert("refund_lock_height"@, number_doc(run.timelock as u64)).insert(
            "package_mode"@,
            text_doc("presigned"@),
        ).insert("signer_ref"@, JsonView::Null).insert(
            "signed_before_contract"@,
            JsonView::Bool(true),
        ).insert("signed_before_funding"@, JsonView::Bool(true)).insert(
            "requester_process_exit"@,
            JsonView::Bool(true),
        ),
    )
}

impl DoomsdayLiquidLockRun {
    fn prepared_document(&self) -> (document: Json)
        ensures
            document@ == doomsday_liquid_lock_doc(self@),
    {
        Json::object(
            JsonObject::new().with_text("schema", "openagents.immortal.doomsday-prepared.v1").with(
                "case_id",
                Json::text(self.case.case_id()),
            ).with_text("provider_pubkey", self.provider_pubkey.as_str()).with_text(
                "order_id",
                self.order_id.as_str(),
            ).with_text("funding_transaction_id", self.funding_id.as_str()).with_number(
                "refund_lock_height",
                self.timelock as u64,
            ).with_text("package_mode", "presigned").with("signer_ref", Json::null()).with_bool(
                "signed_before_contract",
                true,
            ).with_bool("signed_before_funding", true).with_bool("requester_process_exit", true),
        )
    }

    /// The summary of a Liquid submarine case that is prepared; nothing before it is over.
    pub fn prepared(&self) -> (document: Option<Json>)
        ensures
            match document {
                Some(document) => self@.phase == DoomsdayLiquidLockPhase::Finished && document@ == doomsday_liquid_lock_doc(self@),
                None => self@.phase != DoomsdayLiquidLockPhase::Finished,
            },
    {
        if self.phase == DoomsdayLiquidLockPhase::Finished {
            Some(self.prepared_document())
        } else {
            None
        }
    }
}

/// The phases of the hold of a reverse case, in their order.
#[derive(Clone, Copy, Debug, PartialEq, Eq, Structural)]
pub enum DoomsdayHoldPhase {
    StoreSecret,
    PrepareOrder,
    AwaitAccepted,
    AwaitInvoice,
    AuthorizeFunding,
    KeepAuthorization,
    SayInvoiceVerified,
    StartPayment,
    RecordFunding,
    SayPaymentPending,
    AwaitAttempt,
    KeepPrepared,
    Finished,
}

impl DoomsdayHoldPhase {
    /// The place of the phase in their order.
    pub open spec fn rank(self) -> int {
        match self {
            DoomsdayHoldPhase::StoreSecret => 0,
            DoomsdayHoldPhase::PrepareOrder => 1,
            DoomsdayHoldPhase::AwaitAccepted => 2,
            DoomsdayHoldPhase::AwaitInvoice => 3,
            DoomsdayHoldPhase::AuthorizeFunding => 4,
            DoomsdayHoldPhase::KeepAuthorization => 5,
            DoomsdayHoldPhase::SayInvoiceVerified => 6,
            DoomsdayHoldPhase::StartPayment => 7,
            DoomsdayHoldPhase::RecordFunding => 8,
            DoomsdayHoldPhase::SayPaymentPending => 9,
            DoomsdayHoldPhase::AwaitAttempt => 10,
            DoomsdayHoldPhase::KeepPrepared => 11,
            DoomsdayHoldPhase::Finished => 12,
        }
    }
}

/// A reverse swap whose payment is started, and which is then left alone.
pub struct DoomsdayHoldRun {
    pub phase: DoomsdayHoldPhase,
    pub case: DoomsdayCase,
    pub provider_pubkey: String,
    pub payment_hash: String,
    pub order_id: String,
    pub contract: Json,
    pub invoice: String,
}

/// A reverse swap whose payment is started, and which is then left alone.
#[verifier::ext_equal]
pub struct DoomsdayHoldRunView {
    pub phase: DoomsdayHoldPhase,
    pub case: DoomsdayCase,
    pub provider_pubkey: Seq<char>,
    pub payment_hash: Seq<char>,
    pub order_id: Seq<char>,
    pub contract: JsonView,
    pub invoice: Seq<char>,
}

impl View for DoomsdayHoldRun {
    type V = DoomsdayHoldRunView;

    open spec fn view(&self) -> DoomsdayHoldRunView {
        DoomsdayHoldRunView {
            phase: self.phase,
            case: self.case,
            provider_pubkey: self.provider_pubkey@,
            payment_hash: self.payment_hash@,
            order_id: self.order_id@,
            contract: self.contract@,
            invoice: self.invoice@,
        }
    }
}

/// What the hold of a reverse case asks for next.
pub open spec fn doomsday_hold_action(run: DoomsdayHoldRunView) -> ActionView {
    match run.phase {
        DoomsdayHoldPhase::StoreSecret => ActionView::Perform(
            Task::StoreSecret,
            seq![run.case.journey_label()],
        ),
        DoomsdayHoldPhase::PrepareOrder => ActionView::Perform(
            Task::PrepareOrder,
            seq![run.payment_hash],
        ),
        DoomsdayHoldPhase::AwaitAccepted => ActionView::AwaitState("accepted"@),
        DoomsdayHoldPhase::AwaitInvoice => ActionView::AwaitState("hold_invoice_ready"@),
        DoomsdayHoldPhase::AuthorizeFunding => ActionView::Perform(
            Task::AuthorizeFunding,
            seq![run.invoice],
        ),
        DoomsdayHoldPhase::KeepAuthorization => ActionView::Perform(
            Task::KeepAuthorization,
            seq![],
        ),
        DoomsdayHoldPhase::SayInvoiceVerified => ActionView::Say(
            "requester_invoice_verified"@,
            no_members(),
        ),
        DoomsdayHoldPhase::StartPayment => ActionView::Perform(
            Task::StartPayment,
            seq![run.case.journey_label(), run.invoice, run.payment_hash],
        ),
        DoomsdayHoldPhase::RecordFunding => ActionView::Perform(
            Task::RecordFundingEffect,
            seq![run.payment_hash, run.payment_hash, "text"@],
        ),
        DoomsdayHoldPhase::SayPaymentPending => ActionView::Say(
            "lightning_payment_pending"@,
            no_members(),
        ),
        DoomsdayHoldPhase::AwaitAttempt => ActionView::Perform(
            Task::AwaitPaymentAttempt,
            seq![run.invoice, run.payment_hash],
        ),
        DoomsdayHoldPhase::KeepPrepared => ActionView::Keep(
            "doomsday_prepared"@,
            JsonView::Object(
                no_members().insert("payment_hash"@, text_doc(run.payment_hash)).insert(
                    "package_mode"@,
                    text_doc("wallet_sign"@),
                ).insert("requester_restores_before_direct_recovery"@, JsonView::Bool(true)),
            ),
        ),
        DoomsdayHoldPhase::Finished => ActionView::Finish,
    }
}

/// Where a reply takes the hold of a reverse case.
pub open spec fn doomsday_hold_step(run: DoomsdayHoldRunView, reply: ReplyView) -> Result<
    DoomsdayHoldRunView,
    Seq<char>,
> {
    match (run.phase, reply) {
        (DoomsdayHoldPhase::StoreSecret, ReplyView::Texts(texts)) => {
            if texts.len() != 1 {
                Err(wrong_reply())
            } else {
                Ok(
                    DoomsdayHoldRunView {
                        phase: DoomsdayHoldPhase::PrepareOrder,
                        payment_hash: texts[0],
                        ..run
                    },
                )
            }
        },
        (DoomsdayHoldPhase::PrepareOrder, ReplyView::Session { order_id, contract }) => Ok(
            DoomsdayHoldRunView {
                phase: DoomsdayHoldPhase::AwaitAccepted,
                order_id: order_id,
                contract: contract,
                ..run
            },
        ),
        (DoomsdayHoldPhase::AwaitAccepted, ReplyView::Record { .. }) => Ok(
            DoomsdayHoldRunView { phase: DoomsdayHoldPhase::AwaitInvoice, ..run },
        ),
        (DoomsdayHoldPhase::AwaitInvoice, ReplyView::Record { id, pubkey, tags, content, .. }) => match profile_reading(
            content,
        ) {
            Err(message) => Err(message),
            Ok(profile) => match said(profile, "invoice"@) {
                None => Err("doomsday provider Status has no hold invoice"@),
                Some(invoice) => Ok(
                    DoomsdayHoldRunView {
                        phase: DoomsdayHoldPhase::AuthorizeFunding,
                        invoice: invoice,
                        ..run
                    },
                ),
            },
        },
        (DoomsdayHoldPhase::AuthorizeFunding, ReplyView::Package { mode, document }) => {
            if mode != "wallet_sign"@ {
                Err("doomsday reverse claim changed from wallet_sign"@)
            } else {
                Ok(DoomsdayHoldRunView { phase: DoomsdayHoldPhase::KeepAuthorization, ..run })
            }
        },
        (DoomsdayHoldPhase::AuthorizeFunding, ReplyView::Done) => Err(
            "doomsday reverse has no claim package"@,
        ),
        (DoomsdayHoldPhase::KeepAuthorization, ReplyView::Done) => Ok(
            DoomsdayHoldRunView { phase: DoomsdayHoldPhase::SayInvoiceVerified, ..run },
        ),
        (DoomsdayHoldPhase::SayInvoiceVerified, ReplyView::Record { .. }) => Ok(
            DoomsdayHoldRunView { phase: DoomsdayHoldPhase::StartPayment, ..run },
        ),
        (DoomsdayHoldPhase::StartPayment, ReplyView::Done) => Ok(
            DoomsdayHoldRunView { phase: DoomsdayHoldPhase::RecordFunding, ..run },
        ),
        (DoomsdayHoldPhase::RecordFunding, ReplyView::Done) => Ok(
            DoomsdayHoldRunView { phase: DoomsdayHoldPhase::SayPaymentPending, ..run },
        ),
        (DoomsdayHoldPhase::SayPaymentPending, ReplyView::Record { .. }) => Ok(
            DoomsdayHoldRunView { phase: DoomsdayHoldPhase::AwaitAttempt, ..run },
        ),
        (DoomsdayHoldPhase::AwaitAttempt, ReplyView::Texts(texts)) => Ok(
            DoomsdayHoldRunView { phase: DoomsdayHoldPhase::KeepPrepared, ..run },
        ),
        (DoomsdayHoldPhase::KeepPrepared, ReplyView::Done) => Ok(
            DoomsdayHoldRunView { phase: DoomsdayHoldPhase::Finished, ..run },
        ),
        _ => Err(wrong_reply()),
    }
}

impl DoomsdayHoldRun {
    /// The hold of a reverse case before its first action.
    pub fn new(case: DoomsdayCase, provider_pubkey: &str) -> (run: DoomsdayHoldRun)
        ensures
            run@.phase == DoomsdayHoldPhase::StoreSecret,
            run@.case == case,
            run@.provider_pubkey == provider_pubkey@,
            run@.payment_hash == Seq::<char>::empty(),
            run@.order_id == Seq::<char>::empty(),
            run@.contract == JsonView::Null,
            run@.invoice == Seq::<char>::empty(),
    {
        DoomsdayHoldRun {
            phase: DoomsdayHoldPhase::StoreSecret,
            case,
            provider_pubkey: provider_pubkey.to_owned(),
            payment_hash: String::new(),
            order_id: String::new(),
            contract: Json::null(),
            invoice: String::new(),
        }
    }

    /// What the journey asks for next.
    pub fn action(&self) -> (action: Action)
        ensures
            action@ == doomsday_hold_action(self@),
    {
        match self.phase {
            DoomsdayHoldPhase::StoreSecret => perform_with(
                Task::StoreSecret,
                self.case.journey_name(),
            ),
            DoomsdayHoldPhase::PrepareOrder => perform_with(
                Task::PrepareOrder,
                self.payment_hash.as_str(),
            ),
            DoomsdayHoldPhase::AwaitAccepted => Action::AwaitState("accepted"),
            DoomsdayHoldPhase::AwaitInvoice => Action::AwaitState("hold_invoice_ready"),
            DoomsdayHoldPhase::AuthorizeFunding => perform_with(
                Task::AuthorizeFunding,
                self.invoice.as_str(),
            ),
            DoomsdayHoldPhase::KeepAuthorization => perform(Task::KeepAuthorization),
            DoomsdayHoldPhase::SayInvoiceVerified => Action::Say(
                "requester_invoice_verified",
                JsonObject::new(),
            ),
            DoomsdayHoldPhase::StartPayment => perform_with_three(
                Task::StartPayment,
                self.case.journey_name(),
                self.invoice.as_str(),
                self.payment_hash.as_str(),
            ),
            DoomsdayHoldPhase::RecordFunding => perform_with_three(
                Task::RecordFundingEffect,
                self.payment_hash.as_str(),
                self.payment_hash.as_str(),
                "text",
            ),
            DoomsdayHoldPhase::SayPaymentPending => Action::Say(
                "lightning_payment_pending",
                JsonObject::new(),
            ),
            DoomsdayHoldPhase::AwaitAttempt => perform_with_two(
                Task::AwaitPaymentAttempt,
                self.invoice.as_str(),
                self.payment_hash.as_str(),
            ),
            DoomsdayHoldPhase::KeepPrepared => Action::Keep(
                "doomsday_prepared",
                Json::object(
                    JsonObject::new().with_text(
                        "payment_hash",
                        self.payment_hash.as_str(),
                    ).with_text("package_mode", "wallet_sign").with_bool(
                        "requester_restores_before_direct_recovery",
                        true,
                    ),
                ),
            ),
            DoomsdayHoldPhase::Finished => Action::Finish,
        }
    }

    /// Takes a reply: the journey goes on to its next phase, or ends with a message.
    #[verifier::rlimit(60)]
    pub fn advance(&mut self, reply: Reply) -> (moved: Result<(), String>)
        ensures
            match moved {
                Ok(_) => doomsday_hold_step(
                    old(self)@,
                    reply@,
                ) == Ok::<DoomsdayHoldRunView, Seq<char>>(final(self)@),
                Err(message) => {
                    &&& doomsday_hold_step(
                        old(self)@,
                        reply@,
                    ) == Err::<DoomsdayHoldRunView, Seq<char>>(message@)
                    &&& final(self)@ == old(self)@
                },
            },
    {
        match (self.phase, reply) {
            (DoomsdayHoldPhase::StoreSecret, Reply::Texts(texts)) => {
                if texts.len() != 1 {
                    return Err(wrong_reply_text());
                }
                self.payment_hash = texts[0].clone();
                self.phase = DoomsdayHoldPhase::PrepareOrder;
                Ok(())
            },
            (DoomsdayHoldPhase::PrepareOrder, Reply::Session { order_id, contract }) => {
                self.order_id = order_id;
                self.contract = contract;
                self.phase = DoomsdayHoldPhase::AwaitAccepted;
                Ok(())
            },
            (DoomsdayHoldPhase::AwaitAccepted, Reply::Record(_)) => {
                self.phase = DoomsdayHoldPhase::AwaitInvoice;
                Ok(())
            },
            (DoomsdayHoldPhase::AwaitInvoice, Reply::Record(event)) => {
                let profile: JsonObject = record_profile(&event)?;
                let invoice: String = match profile.text_at("invoice") {
                    Some(invoice) => invoice.to_owned(),
                    None => {
                        return Err("doomsday provider Status has no hold invoice".to_owned());
                    },
                };
                self.invoice = invoice;
                self.phase = DoomsdayHoldPhase::AuthorizeFunding;
                Ok(())
            },
            (DoomsdayHoldPhase::AuthorizeFunding, Reply::Package { mode, document: _ }) => {
                if !same_text(mode.as_str(), "wallet_sign") {
                    return Err("doomsday reverse claim changed from wallet_sign".to_owned());
                }
                self.phase = DoomsdayHoldPhase::KeepAuthorization;
                Ok(())
            },
            (DoomsdayHoldPhase::AuthorizeFunding, Reply::Done) => {
                Err("doomsday reverse has no claim package".to_owned())
            },
            (DoomsdayHoldPhase::KeepAuthorization, Reply::Done) => {
                self.phase = DoomsdayHoldPhase::SayInvoiceVerified;
                Ok(())
            },
            (DoomsdayHoldPhase::SayInvoiceVerified, Reply::Record(_)) => {
                self.phase = DoomsdayHoldPhase::StartPayment;
                Ok(())
            },
            (DoomsdayHoldPhase::StartPayment, Reply::Done) => {
                self.phase = DoomsdayHoldPhase::RecordFunding;
                Ok(())
            },
            (DoomsdayHoldPhase::RecordFunding, Reply::Done) => {
                self.phase = DoomsdayHoldPhase::SayPaymentPending;
                Ok(())
            },
            (DoomsdayHoldPhase::SayPaymentPending, Reply::Record(_)) => {
                self.phase = DoomsdayHoldPhase::AwaitAttempt;
                Ok(())
            },
            (DoomsdayHoldPhase::AwaitAttempt, Reply::Texts(_)) => {
                self.phase = DoomsdayHoldPhase::KeepPrepared;
                Ok(())
            },
            (DoomsdayHoldPhase::KeepPrepared, Reply::Done) => {
                self.phase = DoomsdayHoldPhase::Finished;
                Ok(())
            },
            _ => Err(wrong_reply_text()),
        }
    }
}

/// Whether each entry of a trace leads to the one after it, from the first phase on.
pub open spec fn is_doomsday_hold_trace(trace: Seq<(DoomsdayHoldRunView, ReplyView)>) -> bool {
    &&& trace.len() > 0
    &&& trace[0].0.phase == DoomsdayHoldPhase::StoreSecret
    &&& forall|i: int|
        0 <= i < trace.len() - 1 ==> doomsday_hold_step(
            (#[trigger] trace[i]).0,
            trace[i].1,
        ) == Ok::<
            DoomsdayHoldRunView,
            Seq<char>,
        >(trace[i + 1].0)
}

/// Each reply takes the hold of a reverse case forward, never back and never in place.
pub proof fn law_doomsday_hold_moves_forward(run: DoomsdayHoldRunView, reply: ReplyView)
    requires
        doomsday_hold_step(run, reply) is Ok,
    ensures
        run.phase.rank() < doomsday_hold_step(run, reply)->Ok_0.phase.rank(),
{
}

/// Which replies take the hold of a reverse case on, and to which phase: in each phase exactly the
/// replies that pass every check of that phase, and no others.
pub proof fn law_doomsday_hold_goes_on_only_when_answered(
    run: DoomsdayHoldRunView,
    reply: ReplyView,
)
    ensures
        ({
            let next = doomsday_hold_step(run, reply);
            match run.phase {
                DoomsdayHoldPhase::StoreSecret => {
                    &&& next is Ok <==> {
                        &&& reply is Texts
                        &&& reply->Texts_0.len() == 1
                    }
                    &&& next is Ok ==> next->Ok_0.phase == DoomsdayHoldPhase::PrepareOrder
                },
                DoomsdayHoldPhase::PrepareOrder => {
                    &&& next is Ok <==> reply is Session
                    &&& next is Ok ==> next->Ok_0.phase == DoomsdayHoldPhase::AwaitAccepted
                },
                DoomsdayHoldPhase::AwaitAccepted => {
                    &&& next is Ok <==> reply is Record
                    &&& next is Ok ==> next->Ok_0.phase == DoomsdayHoldPhase::AwaitInvoice
                },
                DoomsdayHoldPhase::AwaitInvoice => {
                    &&& next is Ok <==> {
                        &&& reply is Record
                        &&& profile_reading(reply->Record_content) is Ok
                        &&& said(profile_reading(reply->Record_content)->Ok_0, "invoice"@) is Some
                    }
                    &&& next is Ok ==> next->Ok_0.phase == DoomsdayHoldPhase::AuthorizeFunding
                },
                DoomsdayHoldPhase::AuthorizeFunding => {
                    &&& next is Ok <==> {
                        &&& reply is Package
                        &&& reply->Package_mode == "wallet_sign"@
                    }
                    &&& next is Ok ==> next->Ok_0.phase == DoomsdayHoldPhase::KeepAuthorization
                },
                DoomsdayHoldPhase::KeepAuthorization => {
                    &&& next is Ok <==> reply is Done
                    &&& next is Ok ==> next->Ok_0.phase == DoomsdayHoldPhase::SayInvoiceVerified
                },
                DoomsdayHoldPhase::SayInvoiceVerified => {
                    &&& next is Ok <==> reply is Record
                    &&& next is Ok ==> next->Ok_0.phase == DoomsdayHoldPhase::StartPayment
                },
                DoomsdayHoldPhase::StartPayment => {
                    &&& next is Ok <==> reply is Done
                    &&& next is Ok ==> next->Ok_0.phase == DoomsdayHoldPhase::RecordFunding
                },
                DoomsdayHoldPhase::RecordFunding => {
                    &&& next is Ok <==> reply is Done
                    &&& next is Ok ==> next->Ok_0.phase == DoomsdayHoldPhase::SayPaymentPending
                },
                DoomsdayHoldPhase::SayPaymentPending => {
                    &&& next is Ok <==> reply is Record
                    &&& next is Ok ==> next->Ok_0.phase == DoomsdayHoldPhase::AwaitAttempt
                },
                DoomsdayHoldPhase::AwaitAttempt => {
                    &&& next is Ok <==> reply is Texts
                    &&& next is Ok ==> next->Ok_0.phase == DoomsdayHoldPhase::KeepPrepared
                },
                DoomsdayHoldPhase::KeepPrepared => {
                    &&& next is Ok <==> reply is Done
                    &&& next is Ok ==> next->Ok_0.phase == DoomsdayHoldPhase::Finished
                },
                DoomsdayHoldPhase::Finished => next is Err,
            }
        }),
{
}

/// The reply that a trace of the hold of a reverse case holds for a phase.
pub open spec fn doomsday_hold_told(
    trace: Seq<(DoomsdayHoldRunView, ReplyView)>,
    phase: DoomsdayHoldPhase,
) -> ReplyView {
    trace[choose|i: int| 0 <= i < trace.len() && (#[trigger] trace[i]).0.phase == phase].1
}

/// The values that a run of the hold of a reverse case holds, by the replies that gave them: each
/// stays as the reply to one phase gave it, or as the run started with it.
pub open spec fn doomsday_hold_holds(
    trace: Seq<(DoomsdayHoldRunView, ReplyView)>,
    run: DoomsdayHoldRunView,
) -> bool {
    let start = trace[0].0;
    let payment_hash = doomsday_hold_told(trace, DoomsdayHoldPhase::StoreSecret)->Texts_0[0];
    let order_id = doomsday_hold_told(trace, DoomsdayHoldPhase::PrepareOrder)->Session_order_id;
    let contract = doomsday_hold_told(trace, DoomsdayHoldPhase::PrepareOrder)->Session_contract;
    let invoice = said(
        profile_reading(
            doomsday_hold_told(trace, DoomsdayHoldPhase::AwaitInvoice)->Record_content,
        )->Ok_0,
        "invoice"@,
    )->0;
    &&& run.case == start.case
    &&& run.provider_pubkey == start.provider_pubkey
    &&& run.phase.rank() > DoomsdayHoldPhase::StoreSecret.rank()
        ==> run.payment_hash == payment_hash
    &&& run.phase.rank() > DoomsdayHoldPhase::PrepareOrder.rank() ==> run.order_id == order_id
    &&& run.phase.rank() > DoomsdayHoldPhase::PrepareOrder.rank() ==> run.contract == contract
    &&& run.phase.rank() > DoomsdayHoldPhase::AwaitInvoice.rank() ==> run.invoice == invoice
}

/// No phase of the hold of a reverse case comes twice in a trace.
proof fn lemma_doomsday_hold_told_once(trace: Seq<(DoomsdayHoldRunView, ReplyView)>, place: int)
    requires
        is_doomsday_hold_trace(trace),
        0 <= place < trace.len(),
    ensures
        doomsday_hold_told(trace, trace[place].0.phase) == trace[place].1,
{
    let phase = trace[place].0.phase;
    let other = choose|i: int| 0 <= i < trace.len() && (#[trigger] trace[i]).0.phase == phase;
    assert(trace[place].0.phase == phase);
    if other != place {
        let (early, late) = if other < place {
            (other, place)
        } else {
            (place, other)
        };
        assert forall|run: DoomsdayHoldRunView, reply: ReplyView|
            (#[trigger] doomsday_hold_step(run, reply)) is Ok implies run.phase.rank() < doomsday_hold_step(
            run,
            reply,
        )->Ok_0.phase.rank() by {
            law_doomsday_hold_moves_forward(run, reply);
        }
        lemma_ranks_rise(
            trace,
            |run: DoomsdayHoldRunView, reply: ReplyView| doomsday_hold_step(run, reply),
            |run: DoomsdayHoldRunView| run.phase.rank(),
            early,
            late,
        );
    }
}

/// A reply keeps what the hold of a reverse case holds, and adds what it tells.
proof fn lemma_doomsday_hold_holds_on(
    trace: Seq<(DoomsdayHoldRunView, ReplyView)>,
    run: DoomsdayHoldRunView,
    reply: ReplyView,
)
    requires
        doomsday_hold_holds(trace, run),
        doomsday_hold_told(trace, run.phase) == reply,
        doomsday_hold_step(run, reply) is Ok,
    ensures
        doomsday_hold_holds(trace, doomsday_hold_step(run, reply)->Ok_0),
{
    let next = doomsday_hold_step(run, reply)->Ok_0;
    match run.phase {
        DoomsdayHoldPhase::StoreSecret => assert(doomsday_hold_holds(trace, next)),
        DoomsdayHoldPhase::PrepareOrder => assert(doomsday_hold_holds(trace, next)),
        DoomsdayHoldPhase::AwaitAccepted => assert(doomsday_hold_holds(trace, next)),
        DoomsdayHoldPhase::AwaitInvoice => assert(doomsday_hold_holds(trace, next)),
        DoomsdayHoldPhase::AuthorizeFunding => assert(doomsday_hold_holds(trace, next)),
        DoomsdayHoldPhase::KeepAuthorization => assert(doomsday_hold_holds(trace, next)),
        DoomsdayHoldPhase::SayInvoiceVerified => assert(doomsday_hold_holds(trace, next)),
        DoomsdayHoldPhase::StartPayment => assert(doomsday_hold_holds(trace, next)),
        DoomsdayHoldPhase::RecordFunding => assert(doomsday_hold_holds(trace, next)),
        DoomsdayHoldPhase::SayPaymentPending => assert(doomsday_hold_holds(trace, next)),
        DoomsdayHoldPhase::AwaitAttempt => assert(doomsday_hold_holds(trace, next)),
        DoomsdayHoldPhase::KeepPrepared => assert(doomsday_hold_holds(trace, next)),
        DoomsdayHoldPhase::Finished => assert(doomsday_hold_holds(trace, next)),
    }
}

/// What the hold of a reverse case has been told, it keeps: at every place of a trace each value
/// that the run holds is the one that the reply to the phase that asks for it gave, or the one that
/// the run started with.
pub proof fn law_doomsday_hold_keeps_what_it_was_told(
    trace: Seq<(DoomsdayHoldRunView, ReplyView)>,
    last: int,
)
    requires
        is_doomsday_hold_trace(trace),
        0 <= last < trace.len(),
    ensures
        doomsday_hold_holds(trace, trace[last].0),
    decreases last,
{
    if last > 0 {
        let before = last - 1;
        law_doomsday_hold_keeps_what_it_was_told(trace, before);
        lemma_doomsday_hold_told_once(trace, before);
        assert(doomsday_hold_step(trace[before].0, trace[before].1) == Ok::<DoomsdayHoldRunView, Seq<char>>(
            trace[before + 1].0,
        ));
        lemma_doomsday_hold_holds_on(trace, trace[before].0, trace[before].1);
    }
}

/// What the hold of a reverse case asks for in each phase, in terms of the replies before it: the
/// values in a request are those that the replies to the named phases gave, or those that the run
/// started with.
pub proof fn law_doomsday_hold_asks_with_what_it_was_told(
    trace: Seq<(DoomsdayHoldRunView, ReplyView)>,
    last: int,
)
    requires
        is_doomsday_hold_trace(trace),
        0 <= last < trace.len(),
    ensures
        ({
            let start = trace[0].0;
            let payment_hash = doomsday_hold_told(trace, DoomsdayHoldPhase::StoreSecret)->Texts_0[0];
            let invoice = said(
                profile_reading(
                    doomsday_hold_told(trace, DoomsdayHoldPhase::AwaitInvoice)->Record_content,
                )->Ok_0,
                "invoice"@,
            )->0;
            let action = doomsday_hold_action(trace[last].0);
            match trace[last].0.phase {
                DoomsdayHoldPhase::StoreSecret => action == ActionView::Perform(
                    Task::StoreSecret,
                    seq![start.case.journey_label()],
                ),
                DoomsdayHoldPhase::PrepareOrder => action == ActionView::Perform(
                    Task::PrepareOrder,
                    seq![payment_hash],
                ),
                DoomsdayHoldPhase::AwaitAccepted => action == ActionView::AwaitState("accepted"@),
                DoomsdayHoldPhase::AwaitInvoice => action == ActionView::AwaitState(
                    "hold_invoice_ready"@,
                ),
                DoomsdayHoldPhase::AuthorizeFunding => action == ActionView::Perform(
                    Task::AuthorizeFunding,
                    seq![invoice],
                ),
                DoomsdayHoldPhase::KeepAuthorization => action == ActionView::Perform(
                    Task::KeepAuthorization,
                    seq![],
                ),
                DoomsdayHoldPhase::SayInvoiceVerified => action == ActionView::Say(
                    "requester_invoice_verified"@,
                    no_members(),
                ),
                DoomsdayHoldPhase::StartPayment => action == ActionView::Perform(
                    Task::StartPayment,
                    seq![start.case.journey_label(), invoice, payment_hash],
                ),
                DoomsdayHoldPhase::RecordFunding => action == ActionView::Perform(
                    Task::RecordFundingEffect,
                    seq![payment_hash, payment_hash, "text"@],
                ),
                DoomsdayHoldPhase::SayPaymentPending => action == ActionView::Say(
                    "lightning_payment_pending"@,
                    no_members(),
                ),
                DoomsdayHoldPhase::AwaitAttempt => action == ActionView::Perform(
                    Task::AwaitPaymentAttempt,
                    seq![invoice, payment_hash],
                ),
                DoomsdayHoldPhase::KeepPrepared => action == ActionView::Keep(
                    "doomsday_prepared"@,
                    JsonView::Object(
                        no_members().insert("payment_hash"@, text_doc(payment_hash)).insert("package_mode"@, text_doc("wallet_sign"@)).insert(
                            "requester_restores_before_direct_recovery"@,
                            JsonView::Bool(true),
                        ),
                    ),
                ),
                DoomsdayHoldPhase::Finished => action == ActionView::Finish,
            }
        }),
{
    law_doomsday_hold_keeps_what_it_was_told(trace, last);
}

/// What the hold of a reverse case reports at its end is what it was told on the way: each
/// identifier in the report is the one that the reply to the named phase gave, or one that the run
/// started with.
pub proof fn law_doomsday_hold_doc_names_what_it_was_told(
    trace: Seq<(DoomsdayHoldRunView, ReplyView)>,
    last: int,
)
    requires
        is_doomsday_hold_trace(trace),
        0 <= last < trace.len(),
        trace[last].0.phase == DoomsdayHoldPhase::Finished,
    ensures
        ({
            let start = trace[0].0;
            let payment_hash = doomsday_hold_told(trace, DoomsdayHoldPhase::StoreSecret)->Texts_0[0];
            let order_id = doomsday_hold_told(trace, DoomsdayHoldPhase::PrepareOrder)->Session_order_id;
            doomsday_hold_doc(trace[last].0) == JsonView::Object(
                no_members().insert(
                    "schema"@,
                    text_doc("openagents.immortal.doomsday-prepared.v1"@),
                ).insert(
                    "case_id"@,
                    text_doc("doomsday-reverse-coordinator-gone"@),
                ).insert(
                    "provider_pubkey"@,
                    text_doc(start.provider_pubkey),
                ).insert("order_id"@, text_doc(order_id)).insert("payment_hash"@, text_doc(payment_hash)).insert("package_mode"@, text_doc("wallet_sign"@)).insert(
                    "requester_process_exit"@,
                    JsonView::Bool(true),
                ),
            )
        }),
{
    law_doomsday_hold_keeps_what_it_was_told(trace, last);
}

/// The payment is started only after the client has authorized it.
pub proof fn law_doomsday_hold_is_authorized(
    trace: Seq<(DoomsdayHoldRunView, ReplyView)>,
    last: int,
)
    requires
        is_doomsday_hold_trace(trace),
        0 <= last < trace.len(),
        trace[last].0.phase == DoomsdayHoldPhase::StartPayment,
    ensures
        exists|i: int|
            0 <= i < last && (#[trigger] trace[i]).0.phase == DoomsdayHoldPhase::AuthorizeFunding &&
                (trace[i].1 matches ReplyView::Package { mode, .. } && mode == "wallet_sign"@),
{
    let i = lemma_milestone(
        trace,
        |run: DoomsdayHoldRunView, reply: ReplyView| doomsday_hold_step(run, reply),
        |run: DoomsdayHoldRunView| run.phase.rank(),
        4,
        last,
    );
    assert(trace[i].0.phase == DoomsdayHoldPhase::AuthorizeFunding);
    assert(doomsday_hold_step(trace[i].0, trace[i].1) == Ok::<DoomsdayHoldRunView,
        Seq<char>>(trace[i + 1].0));
}

/// The payment is started only after the secret has been stored.
pub proof fn law_doomsday_hold_keeps_its_secret(
    trace: Seq<(DoomsdayHoldRunView, ReplyView)>,
    last: int,
)
    requires
        is_doomsday_hold_trace(trace),
        0 <= last < trace.len(),
        trace[last].0.phase == DoomsdayHoldPhase::StartPayment,
    ensures
        exists|i: int|
            0 <= i < last && (#[trigger] trace[i]).0.phase == DoomsdayHoldPhase::StoreSecret &&
                trace[i].1 is Texts,
{
    let i = lemma_milestone(
        trace,
        |run: DoomsdayHoldRunView, reply: ReplyView| doomsday_hold_step(run, reply),
        |run: DoomsdayHoldRunView| run.phase.rank(),
        0,
        last,
    );
    assert(trace[i].0.phase == DoomsdayHoldPhase::StoreSecret);
    assert(doomsday_hold_step(trace[i].0, trace[i].1) == Ok::<DoomsdayHoldRunView,
        Seq<char>>(trace[i + 1].0));
}

/// The summary of a reverse case that is prepared.
pub open spec fn doomsday_hold_doc(run: DoomsdayHoldRunView) -> JsonView {
    JsonView::Object(
        no_members().insert(
            "schema"@,
            text_doc("openagents.immortal.doomsday-prepared.v1"@),
        ).insert("case_id"@, text_doc("doomsday-reverse-coordinator-gone"@)).insert(
            "provider_pubkey"@,
            text_doc(run.provider_pubkey),
        ).insert("order_id"@, text_doc(run.order_id)).insert(
            "payment_hash"@,
            text_doc(run.payment_hash),
        ).insert("package_mode"@, text_doc("wallet_sign"@)).insert(
            "requester_process_exit"@,
            JsonView::Bool(true),
        ),
    )
}

impl DoomsdayHoldRun {
    fn prepared_document(&self) -> (document: Json)
        ensures
            document@ == doomsday_hold_doc(self@),
    {
        Json::object(
            JsonObject::new().with_text(
                "schema",
                "openagents.immortal.doomsday-prepared.v1",
            ).with_text("case_id", "doomsday-reverse-coordinator-gone").with_text(
                "provider_pubkey",
                self.provider_pubkey.as_str(),
            ).with_text("order_id", self.order_id.as_str()).with_text(
                "payment_hash",
                self.payment_hash.as_str(),
            ).with_text("package_mode", "wallet_sign").with_bool("requester_process_exit", true),
        )
    }

    /// The summary of a reverse case that is prepared; nothing before it is over.
    pub fn prepared(&self) -> (document: Option<Json>)
        ensures
            match document {
                Some(document) => self@.phase == DoomsdayHoldPhase::Finished && document@ == doomsday_hold_doc(self@),
                None => self@.phase != DoomsdayHoldPhase::Finished,
            },
    {
        if self.phase == DoomsdayHoldPhase::Finished {
            Some(self.prepared_document())
        } else {
            None
        }
    }
}

/// The phases of the hold of a Liquid reverse case, in their order.
#[derive(Clone, Copy, Debug, PartialEq, Eq, Structural)]
pub enum DoomsdayLiquidHoldPhase {
    DiscoverOffering,
    StoreSecret,
    PrepareOrder,
    FinalizeNegotiation,
    AwaitAccepted,
    AwaitInvoice,
    SayInvoiceVerified,
    StartPayment,
    SayPaymentPending,
    AwaitAttempt,
    AwaitHeld,
    AwaitLockTerms,
    SayLockVerified,
    AwaitFunding,
    AwaitFundingPropagated,
    MineFunding,
    AwaitObserved,
    AwaitFinal,
    AuthorizeFunding,
    RecordFunding,
    KeepPrepared,
    Finished,
}

impl DoomsdayLiquidHoldPhase {
    /// The place of the phase in their order.
    pub open spec fn rank(self) -> int {
        match self {
            DoomsdayLiquidHoldPhase::DiscoverOffering => 0,
            DoomsdayLiquidHoldPhase::StoreSecret => 1,
            DoomsdayLiquidHoldPhase::PrepareOrder => 2,
            DoomsdayLiquidHoldPhase::FinalizeNegotiation => 3,
            DoomsdayLiquidHoldPhase::AwaitAccepted => 4,
            DoomsdayLiquidHoldPhase::AwaitInvoice => 5,
            DoomsdayLiquidHoldPhase::SayInvoiceVerified => 6,
            DoomsdayLiquidHoldPhase::StartPayment => 7,
            DoomsdayLiquidHoldPhase::SayPaymentPending => 8,
            DoomsdayLiquidHoldPhase::AwaitAttempt => 9,
            DoomsdayLiquidHoldPhase::AwaitHeld => 10,
            DoomsdayLiquidHoldPhase::AwaitLockTerms => 11,
            DoomsdayLiquidHoldPhase::SayLockVerified => 12,
            DoomsdayLiquidHoldPhase::AwaitFunding => 13,
            DoomsdayLiquidHoldPhase::AwaitFundingPropagated => 14,
            DoomsdayLiquidHoldPhase::MineFunding => 15,
            DoomsdayLiquidHoldPhase::AwaitObserved => 16,
            DoomsdayLiquidHoldPhase::AwaitFinal => 17,
            DoomsdayLiquidHoldPhase::AuthorizeFunding => 18,
            DoomsdayLiquidHoldPhase::RecordFunding => 19,
            DoomsdayLiquidHoldPhase::KeepPrepared => 20,
            DoomsdayLiquidHoldPhase::Finished => 21,
        }
    }
}

/// A Liquid reverse swap whose payment is held and whose lock is funded, and which is then left
/// alone.
pub struct DoomsdayLiquidHoldRun {
    pub phase: DoomsdayLiquidHoldPhase,
    pub case: DoomsdayCase,
    pub provider_pubkey: String,
    pub confirmations: u64,
    pub offering_id: String,
    pub payment_hash: String,
    pub journey_name: String,
    pub signing_handle: String,
    pub preimage_recovery: String,
    pub order_id: String,
    pub contract: Json,
    pub invoice: String,
    pub funding_id: String,
    pub funding_output: u32,
}

/// A Liquid reverse swap whose payment is held and whose lock is funded, and which is then left
/// alone.
#[verifier::ext_equal]
pub struct DoomsdayLiquidHoldRunView {
    pub phase: DoomsdayLiquidHoldPhase,
    pub case: DoomsdayCase,
    pub provider_pubkey: Seq<char>,
    pub confirmations: u64,
    pub offering_id: Seq<char>,
    pub payment_hash: Seq<char>,
    pub journey_name: Seq<char>,
    pub signing_handle: Seq<char>,
    pub preimage_recovery: Seq<char>,
    pub order_id: Seq<char>,
    pub contract: JsonView,
    pub invoice: Seq<char>,
    pub funding_id: Seq<char>,
    pub funding_output: u32,
}

impl View for DoomsdayLiquidHoldRun {
    type V = DoomsdayLiquidHoldRunView;

    open spec fn view(&self) -> DoomsdayLiquidHoldRunView {
        DoomsdayLiquidHoldRunView {
            phase: self.phase,
            case: self.case,
            provider_pubkey: self.provider_pubkey@,
            confirmations: self.confirmations,
            offering_id: self.offering_id@,
            payment_hash: self.payment_hash@,
            journey_name: self.journey_name@,
            signing_handle: self.signing_handle@,
            preimage_recovery: self.preimage_recovery@,
            order_id: self.order_id@,
            contract: self.contract@,
            invoice: self.invoice@,
            funding_id: self.funding_id@,
            funding_output: self.funding_output,
        }
    }
}

/// What the hold of a Liquid reverse case asks for next.
pub open spec fn doomsday_liquid_hold_action(run: DoomsdayLiquidHoldRunView) -> ActionView {
    match run.phase {
        DoomsdayLiquidHoldPhase::DiscoverOffering => ActionView::Perform(
            Task::DiscoverOffering,
            seq![],
        ),
        DoomsdayLiquidHoldPhase::StoreSecret => ActionView::Perform(
            Task::StoreSecret,
            seq![run.case.journey_label()],
        ),
        DoomsdayLiquidHoldPhase::PrepareOrder => ActionView::Perform(
            Task::PrepareOrder,
            seq![run.payment_hash],
        ),
        DoomsdayLiquidHoldPhase::FinalizeNegotiation => ActionView::Perform(
            Task::FinalizeNegotiation,
            seq![run.journey_name],
        ),
        DoomsdayLiquidHoldPhase::AwaitAccepted => ActionView::AwaitState("accepted"@),
        DoomsdayLiquidHoldPhase::AwaitInvoice => ActionView::AwaitState("hold_invoice_ready"@),
        DoomsdayLiquidHoldPhase::SayInvoiceVerified => ActionView::Say(
            "requester_invoice_verified"@,
            no_members(),
        ),
        DoomsdayLiquidHoldPhase::StartPayment => ActionView::Perform(
            Task::StartPayment,
            seq![run.case.journey_label(), run.invoice, run.payment_hash],
        ),
        DoomsdayLiquidHoldPhase::SayPaymentPending => ActionView::Say(
            "lightning_payment_pending"@,
            no_members(),
        ),
        DoomsdayLiquidHoldPhase::AwaitAttempt => ActionView::Perform(
            Task::AwaitPaymentAttempt,
            seq![run.invoice, run.payment_hash],
        ),
        DoomsdayLiquidHoldPhase::AwaitHeld => ActionView::AwaitState("lightning_htlcs_held"@),
        DoomsdayLiquidHoldPhase::AwaitLockTerms => ActionView::AwaitState(
            "provider_lock_terms_ready"@,
        ),
        DoomsdayLiquidHoldPhase::SayLockVerified => ActionView::Say(
            "requester_lock_verified"@,
            no_members(),
        ),
        DoomsdayLiquidHoldPhase::AwaitFunding => ActionView::AwaitState(
            "provider_funding_broadcast"@,
        ),
        DoomsdayLiquidHoldPhase::AwaitFundingPropagated => ActionView::AwaitTransaction(
            "liquid"@,
            run.funding_id,
            "doomsday-liquid-reverse-funding"@,
        ),
        DoomsdayLiquidHoldPhase::MineFunding => ActionView::Mine(
            "liquid"@,
            run.confirmations,
            "doomsday-liquid-reverse-funding"@,
        ),
        DoomsdayLiquidHoldPhase::AwaitObserved => ActionView::AwaitState("funding_observed"@),
        DoomsdayLiquidHoldPhase::AwaitFinal => ActionView::AwaitState("funding_final"@),
        DoomsdayLiquidHoldPhase::AuthorizeFunding => ActionView::Perform(
            Task::AuthorizeFunding,
            seq![run.invoice],
        ),
        DoomsdayLiquidHoldPhase::RecordFunding => ActionView::Perform(
            Task::RecordFundingEffect,
            seq![run.payment_hash, run.payment_hash, "digest"@],
        ),
        DoomsdayLiquidHoldPhase::KeepPrepared => ActionView::Keep(
            "doomsday_prepared"@,
            JsonView::Object(
                no_members().insert("funding_transaction_id"@, text_doc(run.funding_id)).insert(
                    "funding_output_index"@,
                    number_doc(run.funding_output as u64),
                ).insert("package_mode"@, text_doc("wallet_sign"@)).insert(
                    "signer_ref"@,
                    text_doc(run.signing_handle),
                ).insert("preimage_recovery_ref"@, text_doc(run.preimage_recovery)).insert(
                    "exit_template_before_contract"@,
                    JsonView::Bool(true),
                ).insert(
                    "external_recovery_reference_bound_before_contract"@,
                    JsonView::Bool(true),
                ).insert("offering_id"@, text_doc(run.offering_id)),
            ),
        ),
        DoomsdayLiquidHoldPhase::Finished => ActionView::Finish,
    }
}

/// Where a reply takes the hold of a Liquid reverse case.
pub open spec fn doomsday_liquid_hold_step(
    run: DoomsdayLiquidHoldRunView,
    reply: ReplyView,
) -> Result<
    DoomsdayLiquidHoldRunView,
    Seq<char>,
> {
    match (run.phase, reply) {
        (DoomsdayLiquidHoldPhase::DiscoverOffering, ReplyView::Record { id, pubkey, tags, content, .. }) => {
            if pubkey != run.provider_pubkey {
                Err("Liquid reverse doomsday discovered another provider"@)
            } else {
                Ok(
                    DoomsdayLiquidHoldRunView {
                        phase: DoomsdayLiquidHoldPhase::StoreSecret,
                        offering_id: id,
                        ..run
                    },
                )
            }
        },
        (DoomsdayLiquidHoldPhase::StoreSecret, ReplyView::Texts(texts)) => {
            if texts.len() != 1 {
                Err(wrong_reply())
            } else {
                Ok(
                    DoomsdayLiquidHoldRunView {
                        phase: DoomsdayLiquidHoldPhase::PrepareOrder,
                        payment_hash: texts[0],
                        ..run
                    },
                )
            }
        },
        (DoomsdayLiquidHoldPhase::PrepareOrder, ReplyView::LiquidOrder { journey, exit }) => match doomsday_name(
            run.case,
            journey,
        ) {
            Err(message) => Err(message),
            Ok(name) => {
                if !is_wallet_claim(exit) {
                    Err("Liquid reverse doomsday claim has no distinct recovery references"@)
                } else {
                    Ok(
                        DoomsdayLiquidHoldRunView {
                            phase: DoomsdayLiquidHoldPhase::FinalizeNegotiation,
                            journey_name: name,
                            signing_handle: exit.signing_handle->0,
                            preimage_recovery: exit.preimage_recovery->0,
                            ..run
                        },
                    )
                }
            },
        },
        (DoomsdayLiquidHoldPhase::FinalizeNegotiation, ReplyView::Session { order_id, contract }) => Ok(
            DoomsdayLiquidHoldRunView {
                phase: DoomsdayLiquidHoldPhase::AwaitAccepted,
                order_id: order_id,
                contract: contract,
                ..run
            },
        ),
        (DoomsdayLiquidHoldPhase::AwaitAccepted, ReplyView::Record { .. }) => Ok(
            DoomsdayLiquidHoldRunView { phase: DoomsdayLiquidHoldPhase::AwaitInvoice, ..run },
        ),
        (DoomsdayLiquidHoldPhase::AwaitInvoice, ReplyView::Record { id, pubkey, tags, content, .. }) => match profile_reading(
            content,
        ) {
            Err(message) => Err(message),
            Ok(profile) => match said(profile, "invoice"@) {
                None => Err("Liquid doomsday provider Status has no hold invoice"@),
                Some(invoice) => Ok(
                    DoomsdayLiquidHoldRunView {
                        phase: DoomsdayLiquidHoldPhase::SayInvoiceVerified,
                        invoice: invoice,
                        ..run
                    },
                ),
            },
        },
        (DoomsdayLiquidHoldPhase::SayInvoiceVerified, ReplyView::Record { .. }) => Ok(
            DoomsdayLiquidHoldRunView { phase: DoomsdayLiquidHoldPhase::StartPayment, ..run },
        ),
        (DoomsdayLiquidHoldPhase::StartPayment, ReplyView::Done) => Ok(
            DoomsdayLiquidHoldRunView { phase: DoomsdayLiquidHoldPhase::SayPaymentPending, ..run },
        ),
        (DoomsdayLiquidHoldPhase::SayPaymentPending, ReplyView::Record { .. }) => Ok(
            DoomsdayLiquidHoldRunView { phase: DoomsdayLiquidHoldPhase::AwaitAttempt, ..run },
        ),
        (DoomsdayLiquidHoldPhase::AwaitAttempt, ReplyView::Texts(texts)) => Ok(
            DoomsdayLiquidHoldRunView { phase: DoomsdayLiquidHoldPhase::AwaitHeld, ..run },
        ),
        (DoomsdayLiquidHoldPhase::AwaitHeld, ReplyView::Record { .. }) => Ok(
            DoomsdayLiquidHoldRunView { phase: DoomsdayLiquidHoldPhase::AwaitLockTerms, ..run },
        ),
        (DoomsdayLiquidHoldPhase::AwaitLockTerms, ReplyView::Record { .. }) => Ok(
            DoomsdayLiquidHoldRunView { phase: DoomsdayLiquidHoldPhase::SayLockVerified, ..run },
        ),
        (DoomsdayLiquidHoldPhase::SayLockVerified, ReplyView::Record { .. }) => Ok(
            DoomsdayLiquidHoldRunView { phase: DoomsdayLiquidHoldPhase::AwaitFunding, ..run },
        ),
        (DoomsdayLiquidHoldPhase::AwaitFunding, ReplyView::Record { id, pubkey, tags, content, .. }) => match outpoint_reading(
            content,
        ) {
            Err(message) => Err(message),
            Ok(found) => Ok(
                DoomsdayLiquidHoldRunView {
                    phase: DoomsdayLiquidHoldPhase::AwaitFundingPropagated,
                    funding_id: found.0,
                    funding_output: found.1,
                    ..run
                },
            ),
        },
        (DoomsdayLiquidHoldPhase::AwaitFundingPropagated, ReplyView::Done) => Ok(
            DoomsdayLiquidHoldRunView { phase: DoomsdayLiquidHoldPhase::MineFunding, ..run },
        ),
        (DoomsdayLiquidHoldPhase::MineFunding, ReplyView::Done) => Ok(
            DoomsdayLiquidHoldRunView { phase: DoomsdayLiquidHoldPhase::AwaitObserved, ..run },
        ),
        (DoomsdayLiquidHoldPhase::AwaitObserved, ReplyView::Record { .. }) => Ok(
            DoomsdayLiquidHoldRunView { phase: DoomsdayLiquidHoldPhase::AwaitFinal, ..run },
        ),
        (DoomsdayLiquidHoldPhase::AwaitFinal, ReplyView::Record { .. }) => Ok(
            DoomsdayLiquidHoldRunView { phase: DoomsdayLiquidHoldPhase::AuthorizeFunding, ..run },
        ),
        (DoomsdayLiquidHoldPhase::AuthorizeFunding, ReplyView::Done) => Ok(
            DoomsdayLiquidHoldRunView { phase: DoomsdayLiquidHoldPhase::RecordFunding, ..run },
        ),
        (DoomsdayLiquidHoldPhase::RecordFunding, ReplyView::Done) => Ok(
            DoomsdayLiquidHoldRunView { phase: DoomsdayLiquidHoldPhase::KeepPrepared, ..run },
        ),
        (DoomsdayLiquidHoldPhase::KeepPrepared, ReplyView::Done) => Ok(
            DoomsdayLiquidHoldRunView { phase: DoomsdayLiquidHoldPhase::Finished, ..run },
        ),
        _ => Err(wrong_reply()),
    }
}

impl DoomsdayLiquidHoldRun {
    /// The hold of a Liquid reverse case before its first action.
    pub fn new(
        case: DoomsdayCase,
        provider_pubkey: &str,
        confirmations: u64,
    ) -> (run: DoomsdayLiquidHoldRun)
        ensures
            run@.phase == DoomsdayLiquidHoldPhase::DiscoverOffering,
            run@.case == case,
            run@.provider_pubkey == provider_pubkey@,
            run@.confirmations == confirmations,
            run@.offering_id == Seq::<char>::empty(),
            run@.payment_hash == Seq::<char>::empty(),
            run@.journey_name == Seq::<char>::empty(),
            run@.signing_handle == Seq::<char>::empty(),
            run@.preimage_recovery == Seq::<char>::empty(),
            run@.order_id == Seq::<char>::empty(),
            run@.contract == JsonView::Null,
            run@.invoice == Seq::<char>::empty(),
            run@.funding_id == Seq::<char>::empty(),
            run@.funding_output == 0,
    {
        DoomsdayLiquidHoldRun {
            phase: DoomsdayLiquidHoldPhase::DiscoverOffering,
            case,
            provider_pubkey: provider_pubkey.to_owned(),
            confirmations,
            offering_id: String::new(),
            payment_hash: String::new(),
            journey_name: String::new(),
            signing_handle: String::new(),
            preimage_recovery: String::new(),
            order_id: String::new(),
            contract: Json::null(),
            invoice: String::new(),
            funding_id: String::new(),
            funding_output: 0,
        }
    }

    /// What the journey asks for next.
    pub fn action(&self) -> (action: Action)
        ensures
            action@ == doomsday_liquid_hold_action(self@),
    {
        match self.phase {
            DoomsdayLiquidHoldPhase::DiscoverOffering => perform(Task::DiscoverOffering),
            DoomsdayLiquidHoldPhase::StoreSecret => perform_with(
                Task::StoreSecret,
                self.case.journey_name(),
            ),
            DoomsdayLiquidHoldPhase::PrepareOrder => perform_with(
                Task::PrepareOrder,
                self.payment_hash.as_str(),
            ),
            DoomsdayLiquidHoldPhase::FinalizeNegotiation => perform_with(
                Task::FinalizeNegotiation,
                self.journey_name.as_str(),
            ),
            DoomsdayLiquidHoldPhase::AwaitAccepted => Action::AwaitState("accepted"),
            DoomsdayLiquidHoldPhase::AwaitInvoice => Action::AwaitState("hold_invoice_ready"),
            DoomsdayLiquidHoldPhase::SayInvoiceVerified => Action::Say(
                "requester_invoice_verified",
                JsonObject::new(),
            ),
            DoomsdayLiquidHoldPhase::StartPayment => perform_with_three(
                Task::StartPayment,
                self.case.journey_name(),
                self.invoice.as_str(),
                self.payment_hash.as_str(),
            ),
            DoomsdayLiquidHoldPhase::SayPaymentPending => Action::Say(
                "lightning_payment_pending",
                JsonObject::new(),
            ),
            DoomsdayLiquidHoldPhase::AwaitAttempt => perform_with_two(
                Task::AwaitPaymentAttempt,
                self.invoice.as_str(),
                self.payment_hash.as_str(),
            ),
            DoomsdayLiquidHoldPhase::AwaitHeld => Action::AwaitState("lightning_htlcs_held"),
            DoomsdayLiquidHoldPhase::AwaitLockTerms => Action::AwaitState(
                "provider_lock_terms_ready",
            ),
            DoomsdayLiquidHoldPhase::SayLockVerified => Action::Say(
                "requester_lock_verified",
                JsonObject::new(),
            ),
            DoomsdayLiquidHoldPhase::AwaitFunding => Action::AwaitState(
                "provider_funding_broadcast",
            ),
            DoomsdayLiquidHoldPhase::AwaitFundingPropagated => Action::AwaitTransaction(
                "liquid".to_owned(),
                self.funding_id.clone(),
                "doomsday-liquid-reverse-funding",
            ),
            DoomsdayLiquidHoldPhase::MineFunding => Action::Mine(
                "liquid".to_owned(),
                self.confirmations,
                "doomsday-liquid-reverse-funding",
            ),
            DoomsdayLiquidHoldPhase::AwaitObserved => Action::AwaitState("funding_observed"),
            DoomsdayLiquidHoldPhase::AwaitFinal => Action::AwaitState("funding_final"),
            DoomsdayLiquidHoldPhase::AuthorizeFunding => perform_with(
                Task::AuthorizeFunding,
                self.invoice.as_str(),
            ),
            DoomsdayLiquidHoldPhase::RecordFunding => perform_with_three(
                Task::RecordFundingEffect,
                self.payment_hash.as_str(),
                self.payment_hash.as_str(),
                "digest",
            ),
            DoomsdayLiquidHoldPhase::KeepPrepared => Action::Keep(
                "doomsday_prepared",
                Json::object(
                    JsonObject::new().with_text(
                        "funding_transaction_id",
                        self.funding_id.as_str(),
                    ).with_number("funding_output_index", self.funding_output as u64).with_text(
                        "package_mode",
                        "wallet_sign",
                    ).with_text("signer_ref", self.signing_handle.as_str()).with_text(
                        "preimage_recovery_ref",
                        self.preimage_recovery.as_str(),
                    ).with_bool("exit_template_before_contract", true).with_bool(
                        "external_recovery_reference_bound_before_contract",
                        true,
                    ).with_text("offering_id", self.offering_id.as_str()),
                ),
            ),
            DoomsdayLiquidHoldPhase::Finished => Action::Finish,
        }
    }

    /// Takes a reply: the journey goes on to its next phase, or ends with a message.
    #[verifier::rlimit(60)]
    pub fn advance(&mut self, reply: Reply) -> (moved: Result<(), String>)
        ensures
            match moved {
                Ok(_) => doomsday_liquid_hold_step(
                    old(self)@,
                    reply@,
                ) == Ok::<DoomsdayLiquidHoldRunView, Seq<char>>(final(self)@),
                Err(message) => {
                    &&& doomsday_liquid_hold_step(
                        old(self)@,
                        reply@,
                    ) == Err::<DoomsdayLiquidHoldRunView, Seq<char>>(message@)
                    &&& final(self)@ == old(self)@
                },
            },
    {
        match (self.phase, reply) {
            (DoomsdayLiquidHoldPhase::DiscoverOffering, Reply::Record(event)) => {
                if !same_text(event.pubkey.as_str(), self.provider_pubkey.as_str()) {
                    return Err("Liquid reverse doomsday discovered another provider".to_owned());
                }
                self.offering_id = event.id;
                self.phase = DoomsdayLiquidHoldPhase::StoreSecret;
                Ok(())
            },
            (DoomsdayLiquidHoldPhase::StoreSecret, Reply::Texts(texts)) => {
                if texts.len() != 1 {
                    return Err(wrong_reply_text());
                }
                self.payment_hash = texts[0].clone();
                self.phase = DoomsdayLiquidHoldPhase::PrepareOrder;
                Ok(())
            },
            (DoomsdayLiquidHoldPhase::PrepareOrder, Reply::LiquidOrder { journey, exit }) => {
                let name: String = liquid_doomsday_journey_name(
                    self.case,
                    journey.as_str(),
                )?.to_owned();
                if !exit.is_wallet_claim() {
                    return Err(
                        "Liquid reverse doomsday claim has no distinct recovery references".to_owned(),
                    );
                }
                self.journey_name = name;
                self.signing_handle = text_or_empty(exit.signing_handle);
                self.preimage_recovery = text_or_empty(exit.preimage_recovery);
                self.phase = DoomsdayLiquidHoldPhase::FinalizeNegotiation;
                Ok(())
            },
            (DoomsdayLiquidHoldPhase::FinalizeNegotiation, Reply::Session { order_id, contract }) => {
                self.order_id = order_id;
                self.contract = contract;
                self.phase = DoomsdayLiquidHoldPhase::AwaitAccepted;
                Ok(())
            },
            (DoomsdayLiquidHoldPhase::AwaitAccepted, Reply::Record(_)) => {
                self.phase = DoomsdayLiquidHoldPhase::AwaitInvoice;
                Ok(())
            },
            (DoomsdayLiquidHoldPhase::AwaitInvoice, Reply::Record(event)) => {
                let profile: JsonObject = record_profile(&event)?;
                let invoice: String = match profile.text_at("invoice") {
                    Some(invoice) => invoice.to_owned(),
                    None => {
                        return Err(
                            "Liquid doomsday provider Status has no hold invoice".to_owned(),
                        );
                    },
                };
                self.invoice = invoice;
                self.phase = DoomsdayLiquidHoldPhase::SayInvoiceVerified;
                Ok(())
            },
            (DoomsdayLiquidHoldPhase::SayInvoiceVerified, Reply::Record(_)) => {
                self.phase = DoomsdayLiquidHoldPhase::StartPayment;
                Ok(())
            },
            (DoomsdayLiquidHoldPhase::StartPayment, Reply::Done) => {
                self.phase = DoomsdayLiquidHoldPhase::SayPaymentPending;
                Ok(())
            },
            (DoomsdayLiquidHoldPhase::SayPaymentPending, Reply::Record(_)) => {
                self.phase = DoomsdayLiquidHoldPhase::AwaitAttempt;
                Ok(())
            },
            (DoomsdayLiquidHoldPhase::AwaitAttempt, Reply::Texts(_)) => {
                self.phase = DoomsdayLiquidHoldPhase::AwaitHeld;
                Ok(())
            },
            (DoomsdayLiquidHoldPhase::AwaitHeld, Reply::Record(_)) => {
                self.phase = DoomsdayLiquidHoldPhase::AwaitLockTerms;
                Ok(())
            },
            (DoomsdayLiquidHoldPhase::AwaitLockTerms, Reply::Record(_)) => {
                self.phase = DoomsdayLiquidHoldPhase::SayLockVerified;
                Ok(())
            },
            (DoomsdayLiquidHoldPhase::SayLockVerified, Reply::Record(_)) => {
                self.phase = DoomsdayLiquidHoldPhase::AwaitFunding;
                Ok(())
            },
            (DoomsdayLiquidHoldPhase::AwaitFunding, Reply::Record(event)) => {
                let found: (String, u32) = status_outpoint(&event)?;
                self.funding_id = found.0;
                self.funding_output = found.1;
                self.phase = DoomsdayLiquidHoldPhase::AwaitFundingPropagated;
                Ok(())
            },
            (DoomsdayLiquidHoldPhase::AwaitFundingPropagated, Reply::Done) => {
                self.phase = DoomsdayLiquidHoldPhase::MineFunding;
                Ok(())
            },
            (DoomsdayLiquidHoldPhase::MineFunding, Reply::Done) => {
                self.phase = DoomsdayLiquidHoldPhase::AwaitObserved;
                Ok(())
            },
            (DoomsdayLiquidHoldPhase::AwaitObserved, Reply::Record(_)) => {
                self.phase = DoomsdayLiquidHoldPhase::AwaitFinal;
                Ok(())
            },
            (DoomsdayLiquidHoldPhase::AwaitFinal, Reply::Record(_)) => {
                self.phase = DoomsdayLiquidHoldPhase::AuthorizeFunding;
                Ok(())
            },
            (DoomsdayLiquidHoldPhase::AuthorizeFunding, Reply::Done) => {
                self.phase = DoomsdayLiquidHoldPhase::RecordFunding;
                Ok(())
            },
            (DoomsdayLiquidHoldPhase::RecordFunding, Reply::Done) => {
                self.phase = DoomsdayLiquidHoldPhase::KeepPrepared;
                Ok(())
            },
            (DoomsdayLiquidHoldPhase::KeepPrepared, Reply::Done) => {
                self.phase = DoomsdayLiquidHoldPhase::Finished;
                Ok(())
            },
            _ => Err(wrong_reply_text()),
        }
    }
}

/// Whether each entry of a trace leads to the one after it, from the first phase on.
pub open spec fn is_doomsday_liquid_hold_trace(
    trace: Seq<(DoomsdayLiquidHoldRunView, ReplyView)>,
) -> bool {
    &&& trace.len() > 0
    &&& trace[0].0.phase == DoomsdayLiquidHoldPhase::DiscoverOffering
    &&& forall|i: int|
        0 <= i < trace.len() - 1 ==> doomsday_liquid_hold_step(
            (#[trigger] trace[i]).0,
            trace[i].1,
        ) == Ok::<
            DoomsdayLiquidHoldRunView,
            Seq<char>,
        >(trace[i + 1].0)
}

/// Each reply takes the hold of a Liquid reverse case forward, never back and never in place.
pub proof fn law_doomsday_liquid_hold_moves_forward(
    run: DoomsdayLiquidHoldRunView,
    reply: ReplyView,
)
    requires
        doomsday_liquid_hold_step(run, reply) is Ok,
    ensures
        run.phase.rank() < doomsday_liquid_hold_step(run, reply)->Ok_0.phase.rank(),
{
}

/// Which replies take the hold of a Liquid reverse case on, and to which phase: in each phase
/// exactly the replies that pass every check of that phase, and no others.
pub proof fn law_doomsday_liquid_hold_goes_on_only_when_answered(
    run: DoomsdayLiquidHoldRunView,
    reply: ReplyView,
)
    ensures
        ({
            let next = doomsday_liquid_hold_step(run, reply);
            match run.phase {
                DoomsdayLiquidHoldPhase::DiscoverOffering => {
                    &&& next is Ok <==> {
                        &&& reply is Record
                        &&& reply->Record_pubkey == run.provider_pubkey
                    }
                    &&& next is Ok ==> next->Ok_0.phase == DoomsdayLiquidHoldPhase::StoreSecret
                },
                DoomsdayLiquidHoldPhase::StoreSecret => {
                    &&& next is Ok <==> {
                        &&& reply is Texts
                        &&& reply->Texts_0.len() == 1
                    }
                    &&& next is Ok ==> next->Ok_0.phase == DoomsdayLiquidHoldPhase::PrepareOrder
                },
                DoomsdayLiquidHoldPhase::PrepareOrder => {
                    &&& next is Ok <==> {
                        &&& reply is LiquidOrder
                        &&& doomsday_name(run.case, reply->LiquidOrder_journey) is Ok
                        &&& is_wallet_claim(reply->LiquidOrder_exit)
                    }
                    &&& next is Ok ==> next->Ok_0.phase == DoomsdayLiquidHoldPhase::FinalizeNegotiation
                },
                DoomsdayLiquidHoldPhase::FinalizeNegotiation => {
                    &&& next is Ok <==> reply is Session
                    &&& next is Ok ==> next->Ok_0.phase == DoomsdayLiquidHoldPhase::AwaitAccepted
                },
                DoomsdayLiquidHoldPhase::AwaitAccepted => {
                    &&& next is Ok <==> reply is Record
                    &&& next is Ok ==> next->Ok_0.phase == DoomsdayLiquidHoldPhase::AwaitInvoice
                },
                DoomsdayLiquidHoldPhase::AwaitInvoice => {
                    &&& next is Ok <==> {
                        &&& reply is Record
                        &&& profile_reading(reply->Record_content) is Ok
                        &&& said(profile_reading(reply->Record_content)->Ok_0, "invoice"@) is Some
                    }
                    &&& next is Ok ==> next->Ok_0.phase == DoomsdayLiquidHoldPhase::SayInvoiceVerified
                },
                DoomsdayLiquidHoldPhase::SayInvoiceVerified => {
                    &&& next is Ok <==> reply is Record
                    &&& next is Ok ==> next->Ok_0.phase == DoomsdayLiquidHoldPhase::StartPayment
                },
                DoomsdayLiquidHoldPhase::StartPayment => {
                    &&& next is Ok <==> reply is Done
                    &&& next is Ok ==> next->Ok_0.phase == DoomsdayLiquidHoldPhase::SayPaymentPending
                },
                DoomsdayLiquidHoldPhase::SayPaymentPending => {
                    &&& next is Ok <==> reply is Record
                    &&& next is Ok ==> next->Ok_0.phase == DoomsdayLiquidHoldPhase::AwaitAttempt
                },
                DoomsdayLiquidHoldPhase::AwaitAttempt => {
                    &&& next is Ok <==> reply is Texts
                    &&& next is Ok ==> next->Ok_0.phase == DoomsdayLiquidHoldPhase::AwaitHeld
                },
                DoomsdayLiquidHoldPhase::AwaitHeld => {
                    &&& next is Ok <==> reply is Record
                    &&& next is Ok ==> next->Ok_0.phase == DoomsdayLiquidHoldPhase::AwaitLockTerms
                },
                DoomsdayLiquidHoldPhase::AwaitLockTerms => {
                    &&& next is Ok <==> reply is Record
                    &&& next is Ok ==> next->Ok_0.phase == DoomsdayLiquidHoldPhase::SayLockVerified
                },
                DoomsdayLiquidHoldPhase::SayLockVerified => {
                    &&& next is Ok <==> reply is Record
                    &&& next is Ok ==> next->Ok_0.phase == DoomsdayLiquidHoldPhase::AwaitFunding
                },
                DoomsdayLiquidHoldPhase::AwaitFunding => {
                    &&& next is Ok <==> {
                        &&& reply is Record
                        &&& outpoint_reading(reply->Record_content) is Ok
                    }
                    &&& next is Ok ==> next->Ok_0.phase == DoomsdayLiquidHoldPhase::AwaitFundingPropagated
                },
                DoomsdayLiquidHoldPhase::AwaitFundingPropagated => {
                    &&& next is Ok <==> reply is Done
                    &&& next is Ok ==> next->Ok_0.phase == DoomsdayLiquidHoldPhase::MineFunding
                },
                DoomsdayLiquidHoldPhase::MineFunding => {
                    &&& next is Ok <==> reply is Done
                    &&& next is Ok ==> next->Ok_0.phase == DoomsdayLiquidHoldPhase::AwaitObserved
                },
                DoomsdayLiquidHoldPhase::AwaitObserved => {
                    &&& next is Ok <==> reply is Record
                    &&& next is Ok ==> next->Ok_0.phase == DoomsdayLiquidHoldPhase::AwaitFinal
                },
                DoomsdayLiquidHoldPhase::AwaitFinal => {
                    &&& next is Ok <==> reply is Record
                    &&& next is Ok ==> next->Ok_0.phase == DoomsdayLiquidHoldPhase::AuthorizeFunding
                },
                DoomsdayLiquidHoldPhase::AuthorizeFunding => {
                    &&& next is Ok <==> reply is Done
                    &&& next is Ok ==> next->Ok_0.phase == DoomsdayLiquidHoldPhase::RecordFunding
                },
                DoomsdayLiquidHoldPhase::RecordFunding => {
                    &&& next is Ok <==> reply is Done
                    &&& next is Ok ==> next->Ok_0.phase == DoomsdayLiquidHoldPhase::KeepPrepared
                },
                DoomsdayLiquidHoldPhase::KeepPrepared => {
                    &&& next is Ok <==> reply is Done
                    &&& next is Ok ==> next->Ok_0.phase == DoomsdayLiquidHoldPhase::Finished
                },
                DoomsdayLiquidHoldPhase::Finished => next is Err,
            }
        }),
{
}

/// The reply that a trace of the hold of a Liquid reverse case holds for a phase.
pub open spec fn doomsday_liquid_hold_told(
    trace: Seq<(DoomsdayLiquidHoldRunView, ReplyView)>,
    phase: DoomsdayLiquidHoldPhase,
) -> ReplyView {
    trace[choose|i: int| 0 <= i < trace.len() && (#[trigger] trace[i]).0.phase == phase].1
}

/// The values that a run of the hold of a Liquid reverse case holds, by the replies that gave them:
/// each stays as the reply to one phase gave it, or as the run started with it.
pub open spec fn doomsday_liquid_hold_holds(
    trace: Seq<(DoomsdayLiquidHoldRunView, ReplyView)>,
    run: DoomsdayLiquidHoldRunView,
) -> bool {
    let start = trace[0].0;
    let offering_id = doomsday_liquid_hold_told(trace, DoomsdayLiquidHoldPhase::DiscoverOffering)->Record_id;
    let payment_hash = doomsday_liquid_hold_told(trace, DoomsdayLiquidHoldPhase::StoreSecret)->Texts_0[0];
    let journey_name = doomsday_name(
        start.case,
        doomsday_liquid_hold_told(
            trace,
            DoomsdayLiquidHoldPhase::PrepareOrder,
        )->LiquidOrder_journey,
    )->Ok_0;
    let signing_handle = doomsday_liquid_hold_told(
        trace,
        DoomsdayLiquidHoldPhase::PrepareOrder,
    )->LiquidOrder_exit.signing_handle->0;
    let preimage_recovery = doomsday_liquid_hold_told(
        trace,
        DoomsdayLiquidHoldPhase::PrepareOrder,
    )->LiquidOrder_exit.preimage_recovery->0;
    let order_id = doomsday_liquid_hold_told(
        trace,
        DoomsdayLiquidHoldPhase::FinalizeNegotiation,
    )->Session_order_id;
    let contract = doomsday_liquid_hold_told(
        trace,
        DoomsdayLiquidHoldPhase::FinalizeNegotiation,
    )->Session_contract;
    let invoice = said(
        profile_reading(
            doomsday_liquid_hold_told(trace, DoomsdayLiquidHoldPhase::AwaitInvoice)->Record_content,
        )->Ok_0,
        "invoice"@,
    )->0;
    let funding_id = outpoint_reading(
        doomsday_liquid_hold_told(trace, DoomsdayLiquidHoldPhase::AwaitFunding)->Record_content,
    )->Ok_0.0;
    let funding_output = outpoint_reading(
        doomsday_liquid_hold_told(trace, DoomsdayLiquidHoldPhase::AwaitFunding)->Record_content,
    )->Ok_0.1;
    &&& run.case == start.case
    &&& run.provider_pubkey == start.provider_pubkey
    &&& run.confirmations == start.confirmations
    &&& run.phase.rank() > DoomsdayLiquidHoldPhase::DiscoverOffering.rank()
        ==> run.offering_id == offering_id
    &&& run.phase.rank() > DoomsdayLiquidHoldPhase::StoreSecret.rank()
        ==> run.payment_hash == payment_hash
    &&& run.phase.rank() > DoomsdayLiquidHoldPhase::PrepareOrder.rank()
        ==> run.journey_name == journey_name
    &&& run.phase.rank() > DoomsdayLiquidHoldPhase::PrepareOrder.rank()
        ==> run.signing_handle == signing_handle
    &&& run.phase.rank() > DoomsdayLiquidHoldPhase::PrepareOrder.rank()
        ==> run.preimage_recovery == preimage_recovery
    &&& run.phase.rank() > DoomsdayLiquidHoldPhase::FinalizeNegotiation.rank()
        ==> run.order_id == order_id
    &&& run.phase.rank() > DoomsdayLiquidHoldPhase::FinalizeNegotiation.rank()
        ==> run.contract == contract
    &&& run.phase.rank() > DoomsdayLiquidHoldPhase::AwaitInvoice.rank() ==> run.invoice == invoice
    &&& run.phase.rank() > DoomsdayLiquidHoldPhase::AwaitFunding.rank()
        ==> run.funding_id == funding_id
    &&& run.phase.rank() > DoomsdayLiquidHoldPhase::AwaitFunding.rank()
        ==> run.funding_output == funding_output
}

/// No phase of the hold of a Liquid reverse case comes twice in a trace.
proof fn lemma_doomsday_liquid_hold_told_once(
    trace: Seq<(DoomsdayLiquidHoldRunView, ReplyView)>,
    place: int,
)
    requires
        is_doomsday_liquid_hold_trace(trace),
        0 <= place < trace.len(),
    ensures
        doomsday_liquid_hold_told(trace, trace[place].0.phase) == trace[place].1,
{
    let phase = trace[place].0.phase;
    let other = choose|i: int| 0 <= i < trace.len() && (#[trigger] trace[i]).0.phase == phase;
    assert(trace[place].0.phase == phase);
    if other != place {
        let (early, late) = if other < place {
            (other, place)
        } else {
            (place, other)
        };
        assert forall|run: DoomsdayLiquidHoldRunView, reply: ReplyView|
            (#[trigger] doomsday_liquid_hold_step(run, reply)) is Ok implies run.phase.rank() < doomsday_liquid_hold_step(
            run,
            reply,
        )->Ok_0.phase.rank() by {
            law_doomsday_liquid_hold_moves_forward(run, reply);
        }
        lemma_ranks_rise(
            trace,
            |run: DoomsdayLiquidHoldRunView, reply: ReplyView| doomsday_liquid_hold_step(run, reply),
            |run: DoomsdayLiquidHoldRunView| run.phase.rank(),
            early,
            late,
        );
    }
}

/// A reply keeps what the hold of a Liquid reverse case holds, and adds what it tells.
proof fn lemma_doomsday_liquid_hold_holds_on(
    trace: Seq<(DoomsdayLiquidHoldRunView, ReplyView)>,
    run: DoomsdayLiquidHoldRunView,
    reply: ReplyView,
)
    requires
        doomsday_liquid_hold_holds(trace, run),
        doomsday_liquid_hold_told(trace, run.phase) == reply,
        doomsday_liquid_hold_step(run, reply) is Ok,
    ensures
        doomsday_liquid_hold_holds(trace, doomsday_liquid_hold_step(run, reply)->Ok_0),
{
    let next = doomsday_liquid_hold_step(run, reply)->Ok_0;
    match run.phase {
        DoomsdayLiquidHoldPhase::DiscoverOffering => {
            assert(doomsday_liquid_hold_holds(trace, next))
        },
        DoomsdayLiquidHoldPhase::StoreSecret => assert(doomsday_liquid_hold_holds(trace, next)),
        DoomsdayLiquidHoldPhase::PrepareOrder => assert(doomsday_liquid_hold_holds(trace, next)),
        DoomsdayLiquidHoldPhase::FinalizeNegotiation => {
            assert(doomsday_liquid_hold_holds(trace, next))
        },
        DoomsdayLiquidHoldPhase::AwaitAccepted => assert(doomsday_liquid_hold_holds(trace, next)),
        DoomsdayLiquidHoldPhase::AwaitInvoice => assert(doomsday_liquid_hold_holds(trace, next)),
        DoomsdayLiquidHoldPhase::SayInvoiceVerified => {
            assert(doomsday_liquid_hold_holds(trace, next))
        },
        DoomsdayLiquidHoldPhase::StartPayment => assert(doomsday_liquid_hold_holds(trace, next)),
        DoomsdayLiquidHoldPhase::SayPaymentPending => {
            assert(doomsday_liquid_hold_holds(trace, next))
        },
        DoomsdayLiquidHoldPhase::AwaitAttempt => assert(doomsday_liquid_hold_holds(trace, next)),
        DoomsdayLiquidHoldPhase::AwaitHeld => assert(doomsday_liquid_hold_holds(trace, next)),
        DoomsdayLiquidHoldPhase::AwaitLockTerms => assert(doomsday_liquid_hold_holds(trace, next)),
        DoomsdayLiquidHoldPhase::SayLockVerified => assert(doomsday_liquid_hold_holds(trace, next)),
        DoomsdayLiquidHoldPhase::AwaitFunding => assert(doomsday_liquid_hold_holds(trace, next)),
        DoomsdayLiquidHoldPhase::AwaitFundingPropagated => {
            assert(doomsday_liquid_hold_holds(trace, next))
        },
        DoomsdayLiquidHoldPhase::MineFunding => assert(doomsday_liquid_hold_holds(trace, next)),
        DoomsdayLiquidHoldPhase::AwaitObserved => assert(doomsday_liquid_hold_holds(trace, next)),
        DoomsdayLiquidHoldPhase::AwaitFinal => assert(doomsday_liquid_hold_holds(trace, next)),
        DoomsdayLiquidHoldPhase::AuthorizeFunding => {
            assert(doomsday_liquid_hold_holds(trace, next))
        },
        DoomsdayLiquidHoldPhase::RecordFunding => assert(doomsday_liquid_hold_holds(trace, next)),
        DoomsdayLiquidHoldPhase::KeepPrepared => assert(doomsday_liquid_hold_holds(trace, next)),
        DoomsdayLiquidHoldPhase::Finished => assert(doomsday_liquid_hold_holds(trace, next)),
    }
}

/// What the hold of a Liquid reverse case has been told, it keeps: at every place of a trace each
/// value that the run holds is the one that the reply to the phase that asks for it gave, or the
/// one that the run started with.
pub proof fn law_doomsday_liquid_hold_keeps_what_it_was_told(
    trace: Seq<(DoomsdayLiquidHoldRunView, ReplyView)>,
    last: int,
)
    requires
        is_doomsday_liquid_hold_trace(trace),
        0 <= last < trace.len(),
    ensures
        doomsday_liquid_hold_holds(trace, trace[last].0),
    decreases last,
{
    if last > 0 {
        let before = last - 1;
        law_doomsday_liquid_hold_keeps_what_it_was_told(trace, before);
        lemma_doomsday_liquid_hold_told_once(trace, before);
        assert(doomsday_liquid_hold_step(trace[before].0, trace[before].1) == Ok::<DoomsdayLiquidHoldRunView, Seq<char>>(
            trace[before + 1].0,
        ));
        lemma_doomsday_liquid_hold_holds_on(trace, trace[before].0, trace[before].1);
    }
}

/// What the hold of a Liquid reverse case asks for in each phase, in terms of the replies before
/// it: the values in a request are those that the replies to the named phases gave, or those that
/// the run started with.
pub proof fn law_doomsday_liquid_hold_asks_with_what_it_was_told(
    trace: Seq<(DoomsdayLiquidHoldRunView, ReplyView)>,
    last: int,
)
    requires
        is_doomsday_liquid_hold_trace(trace),
        0 <= last < trace.len(),
    ensures
        ({
            let start = trace[0].0;
            let offering_id = doomsday_liquid_hold_told(trace, DoomsdayLiquidHoldPhase::DiscoverOffering)->Record_id;
            let payment_hash = doomsday_liquid_hold_told(trace, DoomsdayLiquidHoldPhase::StoreSecret)->Texts_0[0];
            let journey_name = doomsday_name(
                start.case,
                doomsday_liquid_hold_told(
                    trace,
                    DoomsdayLiquidHoldPhase::PrepareOrder,
                )->LiquidOrder_journey,
            )->Ok_0;
            let signing_handle = doomsday_liquid_hold_told(
                trace,
                DoomsdayLiquidHoldPhase::PrepareOrder,
            )->LiquidOrder_exit.signing_handle->0;
            let preimage_recovery = doomsday_liquid_hold_told(
                trace,
                DoomsdayLiquidHoldPhase::PrepareOrder,
            )->LiquidOrder_exit.preimage_recovery->0;
            let invoice = said(
                profile_reading(
                    doomsday_liquid_hold_told(
                        trace,
                        DoomsdayLiquidHoldPhase::AwaitInvoice,
                    )->Record_content,
                )->Ok_0,
                "invoice"@,
            )->0;
            let funding_id = outpoint_reading(
                doomsday_liquid_hold_told(
                    trace,
                    DoomsdayLiquidHoldPhase::AwaitFunding,
                )->Record_content,
            )->Ok_0.0;
            let funding_output = outpoint_reading(
                doomsday_liquid_hold_told(
                    trace,
                    DoomsdayLiquidHoldPhase::AwaitFunding,
                )->Record_content,
            )->Ok_0.1;
            let action = doomsday_liquid_hold_action(trace[last].0);
            match trace[last].0.phase {
                DoomsdayLiquidHoldPhase::DiscoverOffering => action == ActionView::Perform(
                    Task::DiscoverOffering,
                    seq![],
                ),
                DoomsdayLiquidHoldPhase::StoreSecret => action == ActionView::Perform(
                    Task::StoreSecret,
                    seq![start.case.journey_label()],
                ),
                DoomsdayLiquidHoldPhase::PrepareOrder => action == ActionView::Perform(
                    Task::PrepareOrder,
                    seq![payment_hash],
                ),
                DoomsdayLiquidHoldPhase::FinalizeNegotiation => action == ActionView::Perform(
                    Task::FinalizeNegotiation,
                    seq![journey_name],
                ),
                DoomsdayLiquidHoldPhase::AwaitAccepted => action == ActionView::AwaitState(
                    "accepted"@,
                ),
                DoomsdayLiquidHoldPhase::AwaitInvoice => action == ActionView::AwaitState(
                    "hold_invoice_ready"@,
                ),
                DoomsdayLiquidHoldPhase::SayInvoiceVerified => action == ActionView::Say(
                    "requester_invoice_verified"@,
                    no_members(),
                ),
                DoomsdayLiquidHoldPhase::StartPayment => action == ActionView::Perform(
                    Task::StartPayment,
                    seq![start.case.journey_label(), invoice, payment_hash],
                ),
                DoomsdayLiquidHoldPhase::SayPaymentPending => action == ActionView::Say(
                    "lightning_payment_pending"@,
                    no_members(),
                ),
                DoomsdayLiquidHoldPhase::AwaitAttempt => action == ActionView::Perform(
                    Task::AwaitPaymentAttempt,
                    seq![invoice, payment_hash],
                ),
                DoomsdayLiquidHoldPhase::AwaitHeld => action == ActionView::AwaitState(
                    "lightning_htlcs_held"@,
                ),
                DoomsdayLiquidHoldPhase::AwaitLockTerms => action == ActionView::AwaitState(
                    "provider_lock_terms_ready"@,
                ),
                DoomsdayLiquidHoldPhase::SayLockVerified => action == ActionView::Say(
                    "requester_lock_verified"@,
                    no_members(),
                ),
                DoomsdayLiquidHoldPhase::AwaitFunding => action == ActionView::AwaitState(
                    "provider_funding_broadcast"@,
                ),
                DoomsdayLiquidHoldPhase::AwaitFundingPropagated => action == ActionView::AwaitTransaction(
                    "liquid"@,
                    funding_id,
                    "doomsday-liquid-reverse-funding"@,
                ),
                DoomsdayLiquidHoldPhase::MineFunding => action == ActionView::Mine(
                    "liquid"@,
                    start.confirmations,
                    "doomsday-liquid-reverse-funding"@,
                ),
                DoomsdayLiquidHoldPhase::AwaitObserved => action == ActionView::AwaitState(
                    "funding_observed"@,
                ),
                DoomsdayLiquidHoldPhase::AwaitFinal => action == ActionView::AwaitState(
                    "funding_final"@,
                ),
                DoomsdayLiquidHoldPhase::AuthorizeFunding => action == ActionView::Perform(
                    Task::AuthorizeFunding,
                    seq![invoice],
                ),
                DoomsdayLiquidHoldPhase::RecordFunding => action == ActionView::Perform(
                    Task::RecordFundingEffect,
                    seq![payment_hash, payment_hash, "digest"@],
                ),
                DoomsdayLiquidHoldPhase::KeepPrepared => action == ActionView::Keep(
                    "doomsday_prepared"@,
                    JsonView::Object(
                        no_members().insert("funding_transaction_id"@, text_doc(funding_id)).insert("funding_output_index"@, number_doc(funding_output as u64)).insert("package_mode"@, text_doc("wallet_sign"@)).insert("signer_ref"@, text_doc(signing_handle)).insert("preimage_recovery_ref"@, text_doc(preimage_recovery)).insert("exit_template_before_contract"@, JsonView::Bool(true)).insert(
                            "external_recovery_reference_bound_before_contract"@,
                            JsonView::Bool(true),
                        ).insert("offering_id"@, text_doc(offering_id)),
                    ),
                ),
                DoomsdayLiquidHoldPhase::Finished => action == ActionView::Finish,
            }
        }),
{
    law_doomsday_liquid_hold_keeps_what_it_was_told(trace, last);
}

/// What the hold of a Liquid reverse case reports at its end is what it was told on the way: each
/// identifier in the report is the one that the reply to the named phase gave, or one that the run
/// started with.
pub proof fn law_doomsday_liquid_hold_doc_names_what_it_was_told(
    trace: Seq<(DoomsdayLiquidHoldRunView, ReplyView)>,
    last: int,
)
    requires
        is_doomsday_liquid_hold_trace(trace),
        0 <= last < trace.len(),
        trace[last].0.phase == DoomsdayLiquidHoldPhase::Finished,
    ensures
        ({
            let start = trace[0].0;
            let payment_hash = doomsday_liquid_hold_told(trace, DoomsdayLiquidHoldPhase::StoreSecret)->Texts_0[0];
            let order_id = doomsday_liquid_hold_told(
                trace,
                DoomsdayLiquidHoldPhase::FinalizeNegotiation,
            )->Session_order_id;
            let funding_id = outpoint_reading(
                doomsday_liquid_hold_told(
                    trace,
                    DoomsdayLiquidHoldPhase::AwaitFunding,
                )->Record_content,
            )->Ok_0.0;
            let funding_output = outpoint_reading(
                doomsday_liquid_hold_told(
                    trace,
                    DoomsdayLiquidHoldPhase::AwaitFunding,
                )->Record_content,
            )->Ok_0.1;
            doomsday_liquid_hold_doc(trace[last].0) == JsonView::Object(
                no_members().insert("schema"@, text_doc("openagents.immortal.doomsday-prepared.v1"@)).insert("case_id"@, text_doc(start.case.id())).insert("provider_pubkey"@, text_doc(start.provider_pubkey)).insert("order_id"@, text_doc(order_id)).insert("payment_hash"@, text_doc(payment_hash)).insert("funding_transaction_id"@, text_doc(funding_id)).insert("funding_output_index"@, number_doc(funding_output as u64)).insert("package_mode"@, text_doc("wallet_sign"@)).insert("exit_template_before_contract"@, JsonView::Bool(true)).insert(
                    "external_recovery_reference_bound_before_contract"@,
                    JsonView::Bool(true),
                ).insert("requester_process_exit"@, JsonView::Bool(true)),
            )
        }),
{
    law_doomsday_liquid_hold_keeps_what_it_was_told(trace, last);
}

/// The payment is started only after the secret has been stored.
pub proof fn law_doomsday_liquid_hold_keeps_its_secret(
    trace: Seq<(DoomsdayLiquidHoldRunView, ReplyView)>,
    last: int,
)
    requires
        is_doomsday_liquid_hold_trace(trace),
        0 <= last < trace.len(),
        trace[last].0.phase == DoomsdayLiquidHoldPhase::StartPayment,
    ensures
        exists|i: int|
            0 <= i < last && (#[trigger] trace[i]).0.phase == DoomsdayLiquidHoldPhase::StoreSecret
                && trace[i].1 is Texts,
{
    let i = lemma_milestone(
        trace,
        |run: DoomsdayLiquidHoldRunView, reply: ReplyView| doomsday_liquid_hold_step(run, reply),
        |run: DoomsdayLiquidHoldRunView| run.phase.rank(),
        1,
        last,
    );
    assert(trace[i].0.phase == DoomsdayLiquidHoldPhase::StoreSecret);
    assert(doomsday_liquid_hold_step(trace[i].0, trace[i].1) == Ok::<DoomsdayLiquidHoldRunView,
        Seq<char>>(trace[i + 1].0));
}

/// Whether every reply of a trace answers the action that it is told for.
pub open spec fn is_answered_doomsday_liquid_hold(
    trace: Seq<(DoomsdayLiquidHoldRunView, ReplyView)>,
    kinds: RecordKinds,
    provider: Seq<char>,
) -> bool {
    forall|i: int|
        0 <= i < trace.len() - 1 ==> answers(
            doomsday_liquid_hold_action((#[trigger] trace[i]).0),
            trace[i].1,
            kinds,
            provider,
        )
}

/// The case counts as prepared only after the lock is final.
pub proof fn law_doomsday_liquid_hold_is_final(
    trace: Seq<(DoomsdayLiquidHoldRunView, ReplyView)>,
    kinds: RecordKinds,
    provider: Seq<char>,
    last: int,
)
    requires
        is_doomsday_liquid_hold_trace(trace),
        is_answered_doomsday_liquid_hold(trace, kinds, provider),
        0 <= last < trace.len(),
        trace[last].0.phase == DoomsdayLiquidHoldPhase::KeepPrepared,
    ensures
        exists|i: int|
            0 <= i < last && (#[trigger] trace[i]).0.phase == DoomsdayLiquidHoldPhase::AwaitFinal &&
                says(
                trace[i].1,
                kinds,
                provider,
                "funding_final"@,
            ),
{
    let i = lemma_milestone(
        trace,
        |run: DoomsdayLiquidHoldRunView, reply: ReplyView| doomsday_liquid_hold_step(run, reply),
        |run: DoomsdayLiquidHoldRunView| run.phase.rank(),
        17,
        last,
    );
    assert(trace[i].0.phase == DoomsdayLiquidHoldPhase::AwaitFinal);
    assert(answers(doomsday_liquid_hold_action(trace[i].0), trace[i].1, kinds, provider));
}

/// The summary of a Liquid reverse case that is prepared.
pub open spec fn doomsday_liquid_hold_doc(run: DoomsdayLiquidHoldRunView) -> JsonView {
    JsonView::Object(
        no_members().insert(
            "schema"@,
            text_doc("openagents.immortal.doomsday-prepared.v1"@),
        ).insert("case_id"@, text_doc(run.case.id())).insert(
            "provider_pubkey"@,
            text_doc(run.provider_pubkey),
        ).insert("order_id"@, text_doc(run.order_id)).insert(
            "payment_hash"@,
            text_doc(run.payment_hash),
        ).insert("funding_transaction_id"@, text_doc(run.funding_id)).insert(
            "funding_output_index"@,
            number_doc(run.funding_output as u64),
        ).insert("package_mode"@, text_doc("wallet_sign"@)).insert(
            "exit_template_before_contract"@,
            JsonView::Bool(true),
        ).insert("external_recovery_reference_bound_before_contract"@, JsonView::Bool(true)).insert(
            "requester_process_exit"@,
            JsonView::Bool(true),
        ),
    )
}

impl DoomsdayLiquidHoldRun {
    fn prepared_document(&self) -> (document: Json)
        ensures
            document@ == doomsday_liquid_hold_doc(self@),
    {
        Json::object(
            JsonObject::new().with_text("schema", "openagents.immortal.doomsday-prepared.v1").with(
                "case_id",
                Json::text(self.case.case_id()),
            ).with_text("provider_pubkey", self.provider_pubkey.as_str()).with_text(
                "order_id",
                self.order_id.as_str(),
            ).with_text("payment_hash", self.payment_hash.as_str()).with_text(
                "funding_transaction_id",
                self.funding_id.as_str(),
            ).with_number("funding_output_index", self.funding_output as u64).with_text(
                "package_mode",
                "wallet_sign",
            ).with_bool("exit_template_before_contract", true).with_bool(
                "external_recovery_reference_bound_before_contract",
                true,
            ).with_bool("requester_process_exit", true),
        )
    }

    /// The summary of a Liquid reverse case that is prepared; nothing before it is over.
    pub fn prepared(&self) -> (document: Option<Json>)
        ensures
            match document {
                Some(document) => self@.phase == DoomsdayLiquidHoldPhase::Finished && document@ == doomsday_liquid_hold_doc(self@),
                None => self@.phase != DoomsdayLiquidHoldPhase::Finished,
            },
    {
        if self.phase == DoomsdayLiquidHoldPhase::Finished {
            Some(self.prepared_document())
        } else {
            None
        }
    }
}

} // verus!
