//! Swaps between Liquid and Lightning.

use vstd::prelude::*;
use crate::answer::{answers, says};
use crate::chain::{
    process_replaced, provider_name, selected_provider, shows_replacement,
};
use crate::control::{said, told_json};
use crate::hex::{decode_fixed_hex, fixed_reading};
use crate::json::{
    Json, JsonObject, JsonView, items_of, items_view, lemma_items_view, member, member_text,
    name_views, no_members, number_doc, step, text_doc, text_of, texts_doc,
};
use crate::lifecycle::{
    chain_leg_process_proof, chain_lifecycle_event_ids, chain_lifecycle_reading, leg_proof_doc,
    outpoint_reading, status_outpoint, status_transaction_id, transaction_reading,
};
use crate::machine::{
    Action, ActionView, CloseCheck, CloseCheckView, INVOICE_EXPIRY_SECONDS, LightningView, Reply,
    ReplyView, Task, effect_details, effect_doc, lemma_milestone, lemma_ranks_rise, perform,
    perform_with, perform_with_four, perform_with_three, perform_with_two, wrong_reply,
    wrong_reply_text,
};
use crate::record::{
    Event, RecordKinds, lemma_filter_empty, lemma_filter_step, profile_reading, record_profile,
};
use crate::terminal::LightningTerminalCheck;
use crate::text::{decimal, decimal_text, join, same_text, told};

verus! {

/// The entries of a list that show a payment as paid.
pub open spec fn paid_entries(hash: Seq<char>) -> spec_fn(JsonView) -> bool {
    |entry: JsonView|
        member_text(entry, "payment_hash"@) == Some(hash) && member_text(entry, "status"@) == Some(
            "paid"@,
        )
}

/// What a list of invoices reads as, held against the one that must be paid.
pub open spec fn invoice_paid_reading(listing: JsonView, hash: Seq<char>) -> Result<(), Seq<char>> {
    let entries = match items_of(member(listing, "invoices"@)) {
        Some(entries) => entries,
        None => Seq::empty(),
    };
    if entries.filter(paid_entries(hash)).len() == 1 {
        Ok(())
    } else {
        Err("requester CLN did not report one exact paid Liquid invoice"@)
    }
}

fn count_paid(entries: &Vec<Json>, hash: &str) -> (count: usize)
    ensures
        count == items_view(entries@).filter(paid_entries(hash@)).len(),
{
    let ghost views = items_view(entries@);
    let ghost keep = paid_entries(hash@);
    let mut count: usize = 0;
    let mut i: usize = 0;
    proof {
        lemma_items_view(entries@);
        lemma_filter_empty(views, keep);
    }
    while i < entries.len()
        invariant
            i <= entries@.len(),
            views == items_view(entries@),
            views.len() == entries@.len(),
            keep == paid_entries(hash@),
            forall|j: int| 0 <= j < entries@.len() ==> #[trigger] views[j] == entries@[j]@,
            count <= i,
            count == views.subrange(0, i as int).filter(keep).len(),
        decreases entries@.len() - i,
    {
        proof {
            lemma_filter_step(views, keep, i as int);
            assert(views[i as int] == entries@[i as int]@);
        }
        if entries[i].says("payment_hash", hash) && entries[i].says("status", "paid") {
            count = count + 1;
        }
        i = i + 1;
    }
    assert(views.subrange(0, i as int) =~= views);
    count
}

/// Checks that the requester's node lists exactly one paid invoice of a payment.
pub fn verify_requester_invoice_paid(listing: &Json, payment_hash: &str) -> (checked: Result<
    (),
    String,
>)
    ensures
        told(checked) == invoice_paid_reading(listing@, payment_hash@),
{
    let entries: Option<&Vec<Json>> = match listing.get("invoices") {
        Some(value) => value.as_array(),
        None => None,
    };
    let count: usize = match entries {
        Some(entries) => count_paid(entries, payment_hash),
        None => {
            proof {
                reveal(Seq::filter);
                assert(Seq::<JsonView>::empty().filter(paid_entries(payment_hash@)).len() == 0);
            }
            0
        },
    };
    if count != 1 {
        return Err("requester CLN did not report one exact paid Liquid invoice".to_owned());
    }
    Ok(())
}

/// What happened to the Lightning leg of a route.
pub open spec fn lightning_terminal_doc(operation: Seq<char>, payment_hash: Seq<char>) -> JsonView {
    JsonView::Object(
        no_members().insert("actor"@, text_doc("requester"@)).insert(
            "effect_actor"@,
            text_doc("provider"@),
        ).insert("operation"@, text_doc(operation)).insert(
            "status_anchor"@,
            text_doc("lightning_paid"@),
        ).insert("state"@, text_doc("settled"@)).insert(
            "observation_authority"@,
            text_doc("requester-cln"@),
        ).insert("payment_hash"@, text_doc(payment_hash)),
    )
}

/// What happened to the Lightning leg of a route: what stands under each of its names.
pub proof fn law_lightning_terminal_says_each_part_by_its_name(
    operation: Seq<char>,
    payment_hash: Seq<char>,
)
    ensures
        ({
            let document = lightning_terminal_doc(operation, payment_hash);
            &&& member_text(document, "actor"@) == Some("requester"@)
            &&& member_text(document, "effect_actor"@) == Some("provider"@)
            &&& member_text(document, "operation"@) == Some(operation)
            &&& member_text(document, "status_anchor"@) == Some("lightning_paid"@)
            &&& member_text(document, "state"@) == Some("settled"@)
            &&& member_text(document, "observation_authority"@) == Some("requester-cln"@)
            &&& member_text(document, "payment_hash"@) == Some(payment_hash)
        }),
{
    reveal_strlit("actor");
    reveal_strlit("effect_actor");
    reveal_strlit("operation");
    reveal_strlit("status_anchor");
    reveal_strlit("state");
    reveal_strlit("observation_authority");
    reveal_strlit("payment_hash");
    assert("actor"@.len() == 5);
    assert("effect_actor"@.len() == 12);
    assert("operation"@.len() == 9);
    assert("status_anchor"@.len() == 13);
    assert("state"@.len() == 5);
    assert("observation_authority"@.len() == 21);
    assert("payment_hash"@.len() == 12);
    assert("actor"@[0] == 'a');
    assert("state"@[0] == 's');
    assert("effect_actor"@[0] == 'e');
    assert("payment_hash"@[0] == 'p');
}

/// What happened to the Lightning leg, by the shape of the route.
pub open spec fn route_lightning_doc(shape: Seq<char>, payment_hash: Seq<char>) -> JsonView {
    if shape == "liquid-submarine"@ {
        lightning_terminal_doc("invoice_pay"@, payment_hash)
    } else if shape == "liquid-reverse"@ {
        lightning_terminal_doc("invoice_settle"@, payment_hash)
    } else {
        JsonView::Null
    }
}

/// The first of some texts, or the empty one.
pub open spec fn first_text(texts: Seq<Seq<char>>) -> Seq<char> {
    if texts.len() > 0 {
        texts[0]
    } else {
        Seq::empty()
    }
}

/// The proof of a finished route between Liquid and Lightning.
pub open spec fn route_proof_doc(
    shape: Seq<char>,
    provider_index: usize,
    lifecycle: JsonView,
    rail: JsonView,
    operations: Seq<Seq<char>>,
    anchors: Seq<Seq<char>>,
    actor: Seq<char>,
    path: Seq<char>,
    payment_hash: Seq<char>,
    restart_proof: JsonView,
) -> JsonView {
    let restart = no_members().insert("target"@, text_doc(provider_name(provider_index))).insert(
        "checkpoint_effect_operation"@,
        text_doc(first_text(operations)),
    ).insert("checkpoint_status_state"@, text_doc(first_text(anchors))).insert(
        "process_replaced"@,
        JsonView::Bool(shows_replacement(restart_proof)),
    ).insert("restored_from_postgres"@, JsonView::Bool(true)).insert(
        "exact_known_replay"@,
        JsonView::Bool(true),
    ).insert("duplicate_external_effects"@, number_doc(0));
    let terminal = no_members().insert("actor"@, text_doc(actor)).insert(
        "path"@,
        text_doc(path),
    ).insert("effect_class"@, text_doc("liquid_spend"@)).insert("confirmed"@, JsonView::Bool(true));
    JsonView::Object(
        no_members().insert(
            "liquid_case"@,
            JsonView::Object(
                no_members().insert(
                    "schema"@,
                    text_doc("openagents.immortal.adversarial-liquid-case.v1"@),
                ).insert("shape"@, text_doc(shape)).insert(
                    "selected_provider"@,
                    text_doc(provider_name(provider_index)),
                ).insert("signed_lifecycle_event_ids"@, lifecycle).insert(
                    "rails"@,
                    JsonView::Object(no_members().insert("liquid"@, rail)),
                ).insert("provider_effect_operations"@, texts_doc(operations)).insert(
                    "provider_status_anchors"@,
                    texts_doc(anchors),
                ).insert("provider_restart"@, JsonView::Object(restart)).insert(
                    "liquid_terminal"@,
                    JsonView::Object(terminal),
                ).insert("lightning_terminal"@, route_lightning_doc(shape, payment_hash)).insert(
                    "recovery"@,
                    JsonView::Null,
                ),
            ),
        ),
    )
}

/// What happened to the Lightning leg of a route.
pub fn lightning_terminal(operation: &str, payment_hash: &str) -> (document: Json)
    ensures
        document@ == lightning_terminal_doc(operation@, payment_hash@),
{
    Json::object(
        JsonObject::new().with_text("actor", "requester").with_text(
            "effect_actor",
            "provider",
        ).with_text("operation", operation).with_text("status_anchor", "lightning_paid").with_text(
            "state",
            "settled",
        ).with_text("observation_authority", "requester-cln").with_text(
            "payment_hash",
            payment_hash,
        ),
    )
}

/// The proof of a finished route between Liquid and Lightning.
pub fn liquid_route_proof(
    shape: &str,
    provider_index: usize,
    lifecycle: Json,
    liquid_rail: Json,
    provider_effect_operations: &Vec<&str>,
    provider_status_anchors: &Vec<&str>,
    terminal_actor: &str,
    terminal_path: &str,
    payment_hash: &str,
    restart_proof: &Json,
) -> (proven: Json)
    ensures
        proven@ == route_proof_doc(
            shape@,
            provider_index,
            lifecycle@,
            liquid_rail@,
            name_views(provider_effect_operations@),
            name_views(provider_status_anchors@),
            terminal_actor@,
            terminal_path@,
            payment_hash@,
            restart_proof@,
        ),
{
    let provider: &str = selected_provider(provider_index);
    proof {
        reveal_strlit("");
        assert(""@ =~= Seq::<char>::empty());
        assert(name_views(provider_effect_operations@).len() == provider_effect_operations@.len());
        assert(name_views(provider_status_anchors@).len() == provider_status_anchors@.len());
    }
    let operation: &str = if provider_effect_operations.len() > 0 {
        provider_effect_operations[0]
    } else {
        ""
    };
    let anchor: &str = if provider_status_anchors.len() > 0 {
        provider_status_anchors[0]
    } else {
        ""
    };
    let restart: JsonObject = JsonObject::new().with_text("target", provider).with_text(
        "checkpoint_effect_operation",
        operation,
    ).with_text("checkpoint_status_state", anchor).with_bool(
        "process_replaced",
        process_replaced(restart_proof),
    ).with_bool("restored_from_postgres", true).with_bool(
        "exact_known_replay",
        true,
    ).with_number("duplicate_external_effects", 0);
    let terminal: JsonObject = JsonObject::new().with_text("actor", terminal_actor).with_text(
        "path",
        terminal_path,
    ).with_text("effect_class", "liquid_spend").with_bool("confirmed", true);
    let lightning: Json = if same_text(shape, "liquid-submarine") {
        lightning_terminal("invoice_pay", payment_hash)
    } else if same_text(shape, "liquid-reverse") {
        lightning_terminal("invoice_settle", payment_hash)
    } else {
        Json::null()
    };
    let case: JsonObject = JsonObject::new().with_text(
        "schema",
        "openagents.immortal.adversarial-liquid-case.v1",
    ).with_text("shape", shape).with_text("selected_provider", provider).with(
        "signed_lifecycle_event_ids",
        lifecycle,
    ).with("rails", Json::object(JsonObject::new().with("liquid", liquid_rail))).with(
        "provider_effect_operations",
        Json::texts(provider_effect_operations),
    ).with("provider_status_anchors", Json::texts(provider_status_anchors)).with(
        "provider_restart",
        Json::object(restart),
    ).with("liquid_terminal", Json::object(terminal)).with("lightning_terminal", lightning).with(
        "recovery",
        Json::null(),
    );
    Json::object(JsonObject::new().with("liquid_case", Json::object(case)))
}

/// The phases of a Liquid submarine swap, in their order.
#[derive(Clone, Copy, Debug, PartialEq, Eq, Structural)]
pub enum LiquidSubmarinePhase {
    CheckNetwork,
    CheckHealth,
    DiscoverOffering,
    CreateInvoice,
    PrepareOrder,
    AwaitAccepted,
    AwaitLockTerms,
    AuthorizeFunding,
    SayVerified,
    KeepReady,
    BroadcastFunding,
    RecordFunding,
    SayBroadcast,
    AwaitFundingPropagated,
    MineFunding,
    AwaitObserved,
    AwaitFinal,
    AwaitPaymentPending,
    AwaitPaid,
    AwaitClaim,
    KeepClaim,
    LoadRestartProof,
    AwaitReplay,
    AwaitClaimPropagated,
    MineClaim,
    AwaitClaimed,
    AwaitCompleted,
    CheckInvoicePaid,
    AwaitClose,
    ReadFunding,
    ReadClaim,
    Finished,
}

impl LiquidSubmarinePhase {
    /// The place of the phase in their order.
    pub open spec fn rank(self) -> int {
        match self {
            LiquidSubmarinePhase::CheckNetwork => 0,
            LiquidSubmarinePhase::CheckHealth => 1,
            LiquidSubmarinePhase::DiscoverOffering => 2,
            LiquidSubmarinePhase::CreateInvoice => 3,
            LiquidSubmarinePhase::PrepareOrder => 4,
            LiquidSubmarinePhase::AwaitAccepted => 5,
            LiquidSubmarinePhase::AwaitLockTerms => 6,
            LiquidSubmarinePhase::AuthorizeFunding => 7,
            LiquidSubmarinePhase::SayVerified => 8,
            LiquidSubmarinePhase::KeepReady => 9,
            LiquidSubmarinePhase::BroadcastFunding => 10,
            LiquidSubmarinePhase::RecordFunding => 11,
            LiquidSubmarinePhase::SayBroadcast => 12,
            LiquidSubmarinePhase::AwaitFundingPropagated => 13,
            LiquidSubmarinePhase::MineFunding => 14,
            LiquidSubmarinePhase::AwaitObserved => 15,
            LiquidSubmarinePhase::AwaitFinal => 16,
            LiquidSubmarinePhase::AwaitPaymentPending => 17,
            LiquidSubmarinePhase::AwaitPaid => 18,
            LiquidSubmarinePhase::AwaitClaim => 19,
            LiquidSubmarinePhase::KeepClaim => 20,
            LiquidSubmarinePhase::LoadRestartProof => 21,
            LiquidSubmarinePhase::AwaitReplay => 22,
            LiquidSubmarinePhase::AwaitClaimPropagated => 23,
            LiquidSubmarinePhase::MineClaim => 24,
            LiquidSubmarinePhase::AwaitClaimed => 25,
            LiquidSubmarinePhase::AwaitCompleted => 26,
            LiquidSubmarinePhase::CheckInvoicePaid => 27,
            LiquidSubmarinePhase::AwaitClose => 28,
            LiquidSubmarinePhase::ReadFunding => 29,
            LiquidSubmarinePhase::ReadClaim => 30,
            LiquidSubmarinePhase::Finished => 31,
        }
    }
}

/// A swap from Liquid to Lightning, with a provider restart before its claim.
pub struct LiquidSubmarineRun {
    pub phase: LiquidSubmarinePhase,
    pub confirmations: u64,
    pub network_id: String,
    pub pegged_asset: String,
    pub invoice_amount_sat: u64,
    pub offering_id: String,
    pub provider_pubkey: String,
    pub payment_hash: String,
    pub invoice: String,
    pub funding_id: String,
    pub funding_output: u32,
    pub funding_hex: String,
    pub claim_status: String,
    pub claim_id: String,
    pub restart_proof: Json,
    pub close_id: String,
    pub locked_hex: String,
    pub claim_hex: String,
}

/// A swap from Liquid to Lightning, with a provider restart before its claim.
#[verifier::ext_equal]
pub struct LiquidSubmarineRunView {
    pub phase: LiquidSubmarinePhase,
    pub confirmations: u64,
    pub network_id: Seq<char>,
    pub pegged_asset: Seq<char>,
    pub invoice_amount_sat: u64,
    pub offering_id: Seq<char>,
    pub provider_pubkey: Seq<char>,
    pub payment_hash: Seq<char>,
    pub invoice: Seq<char>,
    pub funding_id: Seq<char>,
    pub funding_output: u32,
    pub funding_hex: Seq<char>,
    pub claim_status: Seq<char>,
    pub claim_id: Seq<char>,
    pub restart_proof: JsonView,
    pub close_id: Seq<char>,
    pub locked_hex: Seq<char>,
    pub claim_hex: Seq<char>,
}

impl View for LiquidSubmarineRun {
    type V = LiquidSubmarineRunView;

    open spec fn view(&self) -> LiquidSubmarineRunView {
        LiquidSubmarineRunView {
            phase: self.phase,
            confirmations: self.confirmations,
            network_id: self.network_id@,
            pegged_asset: self.pegged_asset@,
            invoice_amount_sat: self.invoice_amount_sat,
            offering_id: self.offering_id@,
            provider_pubkey: self.provider_pubkey@,
            payment_hash: self.payment_hash@,
            invoice: self.invoice@,
            funding_id: self.funding_id@,
            funding_output: self.funding_output,
            funding_hex: self.funding_hex@,
            claim_status: self.claim_status@,
            claim_id: self.claim_id@,
            restart_proof: self.restart_proof@,
            close_id: self.close_id@,
            locked_hex: self.locked_hex@,
            claim_hex: self.claim_hex@,
        }
    }
}

/// What a Liquid submarine swap asks for next.
pub open spec fn liquid_submarine_action(run: LiquidSubmarineRunView) -> ActionView {
    match run.phase {
        LiquidSubmarinePhase::CheckNetwork => ActionView::Perform(Task::ReadLiquidNetwork, seq![]),
        LiquidSubmarinePhase::CheckHealth => ActionView::CheckHealth,
        LiquidSubmarinePhase::DiscoverOffering => ActionView::Perform(
            Task::DiscoverOffering,
            seq![],
        ),
        LiquidSubmarinePhase::CreateInvoice => ActionView::Perform(
            Task::CreateInvoice,
            seq![
                "immortal-liquid-submarine"@,
                decimal(run.invoice_amount_sat as nat),
                "Immortal Liquid submarine route"@,
                decimal(INVOICE_EXPIRY_SECONDS as nat),
            ],
        ),
        LiquidSubmarinePhase::PrepareOrder => ActionView::Perform(
            Task::PrepareOrder,
            seq![run.payment_hash, run.invoice],
        ),
        LiquidSubmarinePhase::AwaitAccepted => ActionView::AwaitState("accepted"@),
        LiquidSubmarinePhase::AwaitLockTerms => ActionView::AwaitState("lock_terms_ready"@),
        LiquidSubmarinePhase::AuthorizeFunding => ActionView::Perform(
            Task::AuthorizeFunding,
            seq![run.invoice],
        ),
        LiquidSubmarinePhase::SayVerified => ActionView::Say(
            "requester_verification_passed"@,
            no_members(),
        ),
        LiquidSubmarinePhase::KeepReady => ActionView::Keep(
            "funding_execution_ready"@,
            effect_doc(run.funding_id),
        ),
        LiquidSubmarinePhase::BroadcastFunding => ActionView::Perform(
            Task::BroadcastFunding,
            seq!["liquid"@],
        ),
        LiquidSubmarinePhase::RecordFunding => ActionView::Perform(
            Task::RecordFundingEffect,
            seq![run.funding_id, run.funding_hex, "hex-bytes"@],
        ),
        LiquidSubmarinePhase::SayBroadcast => ActionView::Say(
            "requester_funding_broadcast"@,
            no_members().insert("transaction_id"@, text_doc(run.funding_id)).insert(
                "output_index"@,
                number_doc(run.funding_output as u64),
            ),
        ),
        LiquidSubmarinePhase::AwaitFundingPropagated => ActionView::AwaitTransaction(
            "liquid"@,
            run.funding_id,
            "liquid-submarine-funding-propagation"@,
        ),
        LiquidSubmarinePhase::MineFunding => ActionView::Mine(
            "liquid"@,
            run.confirmations,
            "liquid-submarine-funding"@,
        ),
        LiquidSubmarinePhase::AwaitObserved => ActionView::AwaitState("funding_observed"@),
        LiquidSubmarinePhase::AwaitFinal => ActionView::AwaitState("funding_final"@),
        LiquidSubmarinePhase::AwaitPaymentPending => ActionView::AwaitState(
            "lightning_payment_pending"@,
        ),
        LiquidSubmarinePhase::AwaitPaid => ActionView::AwaitState("lightning_paid"@),
        LiquidSubmarinePhase::AwaitClaim => ActionView::AwaitState("provider_claim_pending"@),
        LiquidSubmarinePhase::KeepClaim => ActionView::Keep(
            "provider_claim_effect_recorded"@,
            effect_doc(run.claim_id),
        ),
        LiquidSubmarinePhase::LoadRestartProof => ActionView::LoadControllerProof,
        LiquidSubmarinePhase::AwaitReplay => ActionView::AwaitState("provider_claim_pending"@),
        LiquidSubmarinePhase::AwaitClaimPropagated => ActionView::AwaitTransaction(
            "liquid"@,
            run.claim_id,
            "liquid-submarine-claim-propagation"@,
        ),
        LiquidSubmarinePhase::MineClaim => ActionView::Mine(
            "liquid"@,
            run.confirmations,
            "liquid-submarine-claim"@,
        ),
        LiquidSubmarinePhase::AwaitClaimed => ActionView::AwaitState("provider_claimed"@),
        LiquidSubmarinePhase::AwaitCompleted => ActionView::AwaitState("completed"@),
        LiquidSubmarinePhase::CheckInvoicePaid => ActionView::Perform(
            Task::CheckInvoicePaid,
            seq!["liquid-terminal-invoice"@],
        ),
        LiquidSubmarinePhase::AwaitClose => ActionView::AwaitClose(
            CloseCheckView {
                outcome: "completed"@,
                bitcoin: None,
                liquid: Some(run.claim_id),
                lightning: Some(LightningView::Incoming(run.payment_hash)),
            },
        ),
        LiquidSubmarinePhase::ReadFunding => ActionView::ReadTransaction(
            "liquid"@,
            run.funding_id,
            "liquid-submarine-funding-proof"@,
        ),
        LiquidSubmarinePhase::ReadClaim => ActionView::ReadTransaction(
            "liquid"@,
            run.claim_id,
            "liquid-submarine-claim-proof"@,
        ),
        LiquidSubmarinePhase::Finished => ActionView::Finish,
    }
}

/// Where a reply takes a Liquid submarine swap.
pub open spec fn liquid_submarine_step(run: LiquidSubmarineRunView, reply: ReplyView) -> Result<
    LiquidSubmarineRunView,
    Seq<char>,
> {
    match (run.phase, reply) {
        (LiquidSubmarinePhase::CheckNetwork, ReplyView::Texts(texts)) => {
            if texts.len() != 2 {
                Err(wrong_reply())
            } else if texts[0] != run.network_id || texts[1] != run.pegged_asset {
                Err("requester elementsd differs from the configured Liquid network"@)
            } else {
                Ok(LiquidSubmarineRunView { phase: LiquidSubmarinePhase::CheckHealth, ..run })
            }
        },
        (LiquidSubmarinePhase::CheckHealth, ReplyView::Done) => Ok(
            LiquidSubmarineRunView { phase: LiquidSubmarinePhase::DiscoverOffering, ..run },
        ),
        (LiquidSubmarinePhase::DiscoverOffering, ReplyView::Record { id, pubkey, tags, content, .. }) => Ok(
            LiquidSubmarineRunView {
                phase: LiquidSubmarinePhase::CreateInvoice,
                offering_id: id,
                provider_pubkey: pubkey,
                ..run
            },
        ),
        (LiquidSubmarinePhase::CreateInvoice, ReplyView::Texts(texts)) => {
            if texts.len() != 2 {
                Err(wrong_reply())
            } else {
                match fixed_reading(texts[0], "Liquid submarine payment hash"@, 32) {
                    Err(message) => Err(message),
                    Ok(decoded) => Ok(
                        LiquidSubmarineRunView {
                            phase: LiquidSubmarinePhase::PrepareOrder,
                            payment_hash: texts[0],
                            invoice: texts[1],
                            ..run
                        },
                    ),
                }
            }
        },
        (LiquidSubmarinePhase::PrepareOrder, ReplyView::Funding { receipt, id, output_index, hex }) => Ok(
            LiquidSubmarineRunView {
                phase: LiquidSubmarinePhase::AwaitAccepted,
                funding_id: id,
                funding_output: output_index,
                funding_hex: hex,
                ..run
            },
        ),
        (LiquidSubmarinePhase::PrepareOrder, ReplyView::Done) => Err(
            "Liquid submarine has no contract-bound funding transaction"@,
        ),
        (LiquidSubmarinePhase::AwaitAccepted, ReplyView::Record { .. }) => Ok(
            LiquidSubmarineRunView { phase: LiquidSubmarinePhase::AwaitLockTerms, ..run },
        ),
        (LiquidSubmarinePhase::AwaitLockTerms, ReplyView::Record { .. }) => Ok(
            LiquidSubmarineRunView { phase: LiquidSubmarinePhase::AuthorizeFunding, ..run },
        ),
        (LiquidSubmarinePhase::AuthorizeFunding, ReplyView::Done) => Ok(
            LiquidSubmarineRunView { phase: LiquidSubmarinePhase::SayVerified, ..run },
        ),
        (LiquidSubmarinePhase::SayVerified, ReplyView::Record { .. }) => Ok(
            LiquidSubmarineRunView { phase: LiquidSubmarinePhase::KeepReady, ..run },
        ),
        (LiquidSubmarinePhase::KeepReady, ReplyView::Done) => Ok(
            LiquidSubmarineRunView { phase: LiquidSubmarinePhase::BroadcastFunding, ..run },
        ),
        (LiquidSubmarinePhase::BroadcastFunding, ReplyView::Texts(texts)) => {
            if texts.len() != 1 {
                Err(wrong_reply())
            } else if texts[0] != run.funding_id {
                Err("elementsd accepted another Liquid submarine funding transaction"@)
            } else {
                Ok(LiquidSubmarineRunView { phase: LiquidSubmarinePhase::RecordFunding, ..run })
            }
        },
        (LiquidSubmarinePhase::RecordFunding, ReplyView::Done) => Ok(
            LiquidSubmarineRunView { phase: LiquidSubmarinePhase::SayBroadcast, ..run },
        ),
        (LiquidSubmarinePhase::SayBroadcast, ReplyView::Record { .. }) => Ok(
            LiquidSubmarineRunView { phase: LiquidSubmarinePhase::AwaitFundingPropagated, ..run },
        ),
        (LiquidSubmarinePhase::AwaitFundingPropagated, ReplyView::Done) => Ok(
            LiquidSubmarineRunView { phase: LiquidSubmarinePhase::MineFunding, ..run },
        ),
        (LiquidSubmarinePhase::MineFunding, ReplyView::Done) => Ok(
            LiquidSubmarineRunView { phase: LiquidSubmarinePhase::AwaitObserved, ..run },
        ),
        (LiquidSubmarinePhase::AwaitObserved, ReplyView::Record { .. }) => Ok(
            LiquidSubmarineRunView { phase: LiquidSubmarinePhase::AwaitFinal, ..run },
        ),
        (LiquidSubmarinePhase::AwaitFinal, ReplyView::Record { .. }) => Ok(
            LiquidSubmarineRunView { phase: LiquidSubmarinePhase::AwaitPaymentPending, ..run },
        ),
        (LiquidSubmarinePhase::AwaitPaymentPending, ReplyView::Record { .. }) => Ok(
            LiquidSubmarineRunView { phase: LiquidSubmarinePhase::AwaitPaid, ..run },
        ),
        (LiquidSubmarinePhase::AwaitPaid, ReplyView::Record { .. }) => Ok(
            LiquidSubmarineRunView { phase: LiquidSubmarinePhase::AwaitClaim, ..run },
        ),
        (LiquidSubmarinePhase::AwaitClaim, ReplyView::Record { id, pubkey, tags, content, .. }) => match transaction_reading(
            content,
        ) {
            Err(message) => Err(message),
            Ok(found) => Ok(
                LiquidSubmarineRunView {
                    phase: LiquidSubmarinePhase::KeepClaim,
                    claim_id: found,
                    claim_status: id,
                    ..run
                },
            ),
        },
        (LiquidSubmarinePhase::KeepClaim, ReplyView::Done) => Ok(
            LiquidSubmarineRunView { phase: LiquidSubmarinePhase::LoadRestartProof, ..run },
        ),
        (LiquidSubmarinePhase::LoadRestartProof, ReplyView::Document(Some(document))) => Ok(
            LiquidSubmarineRunView {
                phase: LiquidSubmarinePhase::AwaitReplay,
                restart_proof: document,
                ..run
            },
        ),
        (LiquidSubmarinePhase::LoadRestartProof, ReplyView::Document(None)) => Err(
            "Liquid submarine provider restart has no controller proof"@,
        ),
        (LiquidSubmarinePhase::AwaitReplay, ReplyView::Record { id, pubkey, tags, content, .. }) => {
            if id != run.claim_status {
                Err("Liquid submarine restart replayed another claim effect"@)
            } else {
                match transaction_reading(content) {
                    Err(message) => Err(message),
                    Ok(found) => {
                        if found != run.claim_id {
                            Err("Liquid submarine restart replayed another claim effect"@)
                        } else {
                            Ok(
                                LiquidSubmarineRunView {
                                    phase: LiquidSubmarinePhase::AwaitClaimPropagated,
                                    ..run
                                },
                            )
                        }
                    },
                }
            }
        },
        (LiquidSubmarinePhase::AwaitClaimPropagated, ReplyView::Done) => Ok(
            LiquidSubmarineRunView { phase: LiquidSubmarinePhase::MineClaim, ..run },
        ),
        (LiquidSubmarinePhase::MineClaim, ReplyView::Done) => Ok(
            LiquidSubmarineRunView { phase: LiquidSubmarinePhase::AwaitClaimed, ..run },
        ),
        (LiquidSubmarinePhase::AwaitClaimed, ReplyView::Record { .. }) => Ok(
            LiquidSubmarineRunView { phase: LiquidSubmarinePhase::AwaitCompleted, ..run },
        ),
        (LiquidSubmarinePhase::AwaitCompleted, ReplyView::Record { .. }) => Ok(
            LiquidSubmarineRunView { phase: LiquidSubmarinePhase::CheckInvoicePaid, ..run },
        ),
        (LiquidSubmarinePhase::CheckInvoicePaid, ReplyView::Document(Some(listing))) => match invoice_paid_reading(
            listing,
            run.payment_hash,
        ) {
            Err(message) => Err(message),
            Ok(paid) => Ok(
                LiquidSubmarineRunView { phase: LiquidSubmarinePhase::AwaitClose, ..run },
            ),
        },
        (LiquidSubmarinePhase::AwaitClose, ReplyView::Record { id, pubkey, tags, content, .. }) => Ok(
            LiquidSubmarineRunView {
                phase: LiquidSubmarinePhase::ReadFunding,
                close_id: id,
                ..run
            },
        ),
        (LiquidSubmarinePhase::ReadFunding, ReplyView::Texts(texts)) => {
            if texts.len() != 1 {
                Err(wrong_reply())
            } else {
                Ok(
                    LiquidSubmarineRunView {
                        phase: LiquidSubmarinePhase::ReadClaim,
                        locked_hex: texts[0],
                        ..run
                    },
                )
            }
        },
        (LiquidSubmarinePhase::ReadClaim, ReplyView::Texts(texts)) => {
            if texts.len() != 1 {
                Err(wrong_reply())
            } else {
                Ok(
                    LiquidSubmarineRunView {
                        phase: LiquidSubmarinePhase::Finished,
                        claim_hex: texts[0],
                        ..run
                    },
                )
            }
        },
        _ => Err(wrong_reply()),
    }
}

impl LiquidSubmarineRun {
    /// A Liquid submarine swap before its first action.
    pub fn new(
        confirmations: u64,
        network_id: &str,
        pegged_asset: &str,
        invoice_amount_sat: u64,
    ) -> (run: LiquidSubmarineRun)
        ensures
            run@.phase == LiquidSubmarinePhase::CheckNetwork,
            run@.confirmations == confirmations,
            run@.network_id == network_id@,
            run@.pegged_asset == pegged_asset@,
            run@.invoice_amount_sat == invoice_amount_sat,
            run@.offering_id == Seq::<char>::empty(),
            run@.provider_pubkey == Seq::<char>::empty(),
            run@.payment_hash == Seq::<char>::empty(),
            run@.invoice == Seq::<char>::empty(),
            run@.funding_id == Seq::<char>::empty(),
            run@.funding_output == 0,
            run@.funding_hex == Seq::<char>::empty(),
            run@.claim_status == Seq::<char>::empty(),
            run@.claim_id == Seq::<char>::empty(),
            run@.restart_proof == JsonView::Null,
            run@.close_id == Seq::<char>::empty(),
            run@.locked_hex == Seq::<char>::empty(),
            run@.claim_hex == Seq::<char>::empty(),
    {
        LiquidSubmarineRun {
            phase: LiquidSubmarinePhase::CheckNetwork,
            confirmations,
            network_id: network_id.to_owned(),
            pegged_asset: pegged_asset.to_owned(),
            invoice_amount_sat,
            offering_id: String::new(),
            provider_pubkey: String::new(),
            payment_hash: String::new(),
            invoice: String::new(),
            funding_id: String::new(),
            funding_output: 0,
            funding_hex: String::new(),
            claim_status: String::new(),
            claim_id: String::new(),
            restart_proof: Json::null(),
            close_id: String::new(),
            locked_hex: String::new(),
            claim_hex: String::new(),
        }
    }

    /// What the journey asks for next.
    pub fn action(&self) -> (action: Action)
        ensures
            action@ == liquid_submarine_action(self@),
    {
        match self.phase {
            LiquidSubmarinePhase::CheckNetwork => perform(Task::ReadLiquidNetwork),
            LiquidSubmarinePhase::CheckHealth => Action::CheckHealth,
            LiquidSubmarinePhase::DiscoverOffering => perform(Task::DiscoverOffering),
            LiquidSubmarinePhase::CreateInvoice => perform_with_four(
                Task::CreateInvoice,
                "immortal-liquid-submarine",
                decimal_text(self.invoice_amount_sat).as_str(),
                "Immortal Liquid submarine route",
                decimal_text(INVOICE_EXPIRY_SECONDS).as_str(),
            ),
            LiquidSubmarinePhase::PrepareOrder => perform_with_two(
                Task::PrepareOrder,
                self.payment_hash.as_str(),
                self.invoice.as_str(),
            ),
            LiquidSubmarinePhase::AwaitAccepted => Action::AwaitState("accepted"),
            LiquidSubmarinePhase::AwaitLockTerms => Action::AwaitState("lock_terms_ready"),
            LiquidSubmarinePhase::AuthorizeFunding => perform_with(
                Task::AuthorizeFunding,
                self.invoice.as_str(),
            ),
            LiquidSubmarinePhase::SayVerified => Action::Say(
                "requester_verification_passed",
                JsonObject::new(),
            ),
            LiquidSubmarinePhase::KeepReady => Action::Keep(
                "funding_execution_ready",
                effect_details(self.funding_id.as_str()),
            ),
            LiquidSubmarinePhase::BroadcastFunding => perform_with(
                Task::BroadcastFunding,
                "liquid",
            ),
            LiquidSubmarinePhase::RecordFunding => perform_with_three(
                Task::RecordFundingEffect,
                self.funding_id.as_str(),
                self.funding_hex.as_str(),
                "hex-bytes",
            ),
            LiquidSubmarinePhase::SayBroadcast => Action::Say(
                "requester_funding_broadcast",
                JsonObject::new().with_text("transaction_id", self.funding_id.as_str()).with_number(
                    "output_index",
                    self.funding_output as u64,
                ),
            ),
            LiquidSubmarinePhase::AwaitFundingPropagated => Action::AwaitTransaction(
                "liquid".to_owned(),
                self.funding_id.clone(),
                "liquid-submarine-funding-propagation",
            ),
            LiquidSubmarinePhase::MineFunding => Action::Mine(
                "liquid".to_owned(),
                self.confirmations,
                "liquid-submarine-funding",
            ),
            LiquidSubmarinePhase::AwaitObserved => Action::AwaitState("funding_observed"),
            LiquidSubmarinePhase::AwaitFinal => Action::AwaitState("funding_final"),
            LiquidSubmarinePhase::AwaitPaymentPending => Action::AwaitState(
                "lightning_payment_pending",
            ),
            LiquidSubmarinePhase::AwaitPaid => Action::AwaitState("lightning_paid"),
            LiquidSubmarinePhase::AwaitClaim => Action::AwaitState("provider_claim_pending"),
            LiquidSubmarinePhase::KeepClaim => Action::Keep(
                "provider_claim_effect_recorded",
                effect_details(self.claim_id.as_str()),
            ),
            LiquidSubmarinePhase::LoadRestartProof => Action::LoadControllerProof,
            LiquidSubmarinePhase::AwaitReplay => Action::AwaitState("provider_claim_pending"),
            LiquidSubmarinePhase::AwaitClaimPropagated => Action::AwaitTransaction(
                "liquid".to_owned(),
                self.claim_id.clone(),
                "liquid-submarine-claim-propagation",
            ),
            LiquidSubmarinePhase::MineClaim => Action::Mine(
                "liquid".to_owned(),
                self.confirmations,
                "liquid-submarine-claim",
            ),
            LiquidSubmarinePhase::AwaitClaimed => Action::AwaitState("provider_claimed"),
            LiquidSubmarinePhase::AwaitCompleted => Action::AwaitState("completed"),
            LiquidSubmarinePhase::CheckInvoicePaid => perform_with(
                Task::CheckInvoicePaid,
                "liquid-terminal-invoice",
            ),
            LiquidSubmarinePhase::AwaitClose => Action::AwaitClose(
                CloseCheck {
                    outcome: "completed",
                    bitcoin: None,
                    liquid: Some(self.claim_id.clone()),
                    lightning: Some(
                        LightningTerminalCheck::IncomingInvoice {
                            payment_hash: self.payment_hash.clone(),
                        },
                    ),
                },
            ),
            LiquidSubmarinePhase::ReadFunding => Action::ReadTransaction(
                "liquid".to_owned(),
                self.funding_id.clone(),
                "liquid-submarine-funding-proof",
            ),
            LiquidSubmarinePhase::ReadClaim => Action::ReadTransaction(
                "liquid".to_owned(),
                self.claim_id.clone(),
                "liquid-submarine-claim-proof",
            ),
            LiquidSubmarinePhase::Finished => Action::Finish,
        }
    }

    /// Takes a reply: the journey goes on to its next phase, or ends with a message.
    #[verifier::rlimit(60)]
    pub fn advance(&mut self, reply: Reply) -> (moved: Result<(), String>)
        ensures
            match moved {
                Ok(_) => liquid_submarine_step(
                    old(self)@,
                    reply@,
                ) == Ok::<LiquidSubmarineRunView, Seq<char>>(final(self)@),
                Err(message) => {
                    &&& liquid_submarine_step(
                        old(self)@,
                        reply@,
                    ) == Err::<LiquidSubmarineRunView, Seq<char>>(message@)
                    &&& final(self)@ == old(self)@
                },
            },
    {
        match (self.phase, reply) {
            (LiquidSubmarinePhase::CheckNetwork, Reply::Texts(texts)) => {
                if texts.len() != 2 {
                    return Err(wrong_reply_text());
                }
                if !same_text(texts[0].as_str(), self.network_id.as_str())
                    || !same_text(texts[1].as_str(), self.pegged_asset.as_str())
                {
                    return Err(
                        "requester elementsd differs from the configured Liquid network".to_owned(),
                    );
                }
                self.phase = LiquidSubmarinePhase::CheckHealth;
                Ok(())
            },
            (LiquidSubmarinePhase::CheckHealth, Reply::Done) => {
                self.phase = LiquidSubmarinePhase::DiscoverOffering;
                Ok(())
            },
            (LiquidSubmarinePhase::DiscoverOffering, Reply::Record(event)) => {
                self.offering_id = event.id;
                self.provider_pubkey = event.pubkey;
                self.phase = LiquidSubmarinePhase::CreateInvoice;
                Ok(())
            },
            (LiquidSubmarinePhase::CreateInvoice, Reply::Texts(texts)) => {
                if texts.len() != 2 {
                    return Err(wrong_reply_text());
                }
                let decoded: Vec<u8> = decode_fixed_hex::<32>(
                    texts[0].as_str(),
                    "Liquid submarine payment hash",
                )?;
                self.payment_hash = texts[0].clone();
                self.invoice = texts[1].clone();
                self.phase = LiquidSubmarinePhase::PrepareOrder;
                Ok(())
            },
            (LiquidSubmarinePhase::PrepareOrder, Reply::Funding { receipt: _, id, output_index, hex }) => {
                self.funding_id = id;
                self.funding_output = output_index;
                self.funding_hex = hex;
                self.phase = LiquidSubmarinePhase::AwaitAccepted;
                Ok(())
            },
            (LiquidSubmarinePhase::PrepareOrder, Reply::Done) => {
                Err("Liquid submarine has no contract-bound funding transaction".to_owned())
            },
            (LiquidSubmarinePhase::AwaitAccepted, Reply::Record(_)) => {
                self.phase = LiquidSubmarinePhase::AwaitLockTerms;
                Ok(())
            },
            (LiquidSubmarinePhase::AwaitLockTerms, Reply::Record(_)) => {
                self.phase = LiquidSubmarinePhase::AuthorizeFunding;
                Ok(())
            },
            (LiquidSubmarinePhase::AuthorizeFunding, Reply::Done) => {
                self.phase = LiquidSubmarinePhase::SayVerified;
                Ok(())
            },
            (LiquidSubmarinePhase::SayVerified, Reply::Record(_)) => {
                self.phase = LiquidSubmarinePhase::KeepReady;
                Ok(())
            },
            (LiquidSubmarinePhase::KeepReady, Reply::Done) => {
                self.phase = LiquidSubmarinePhase::BroadcastFunding;
                Ok(())
            },
            (LiquidSubmarinePhase::BroadcastFunding, Reply::Texts(texts)) => {
                if texts.len() != 1 {
                    return Err(wrong_reply_text());
                }
                if !same_text(texts[0].as_str(), self.funding_id.as_str()) {
                    return Err(
                        "elementsd accepted another Liquid submarine funding transaction".to_owned(),
                    );
                }
                self.phase = LiquidSubmarinePhase::RecordFunding;
                Ok(())
            },
            (LiquidSubmarinePhase::RecordFunding, Reply::Done) => {
                self.phase = LiquidSubmarinePhase::SayBroadcast;
                Ok(())
            },
            (LiquidSubmarinePhase::SayBroadcast, Reply::Record(_)) => {
                self.phase = LiquidSubmarinePhase::AwaitFundingPropagated;
                Ok(())
            },
            (LiquidSubmarinePhase::AwaitFundingPropagated, Reply::Done) => {
                self.phase = LiquidSubmarinePhase::MineFunding;
                Ok(())
            },
            (LiquidSubmarinePhase::MineFunding, Reply::Done) => {
                self.phase = LiquidSubmarinePhase::AwaitObserved;
                Ok(())
            },
            (LiquidSubmarinePhase::AwaitObserved, Reply::Record(_)) => {
                self.phase = LiquidSubmarinePhase::AwaitFinal;
                Ok(())
            },
            (LiquidSubmarinePhase::AwaitFinal, Reply::Record(_)) => {
                self.phase = LiquidSubmarinePhase::AwaitPaymentPending;
                Ok(())
            },
            (LiquidSubmarinePhase::AwaitPaymentPending, Reply::Record(_)) => {
                self.phase = LiquidSubmarinePhase::AwaitPaid;
                Ok(())
            },
            (LiquidSubmarinePhase::AwaitPaid, Reply::Record(_)) => {
                self.phase = LiquidSubmarinePhase::AwaitClaim;
                Ok(())
            },
            (LiquidSubmarinePhase::AwaitClaim, Reply::Record(event)) => {
                let found: String = status_transaction_id(&event)?;
                self.claim_id = found;
                self.claim_status = event.id;
                self.phase = LiquidSubmarinePhase::KeepClaim;
                Ok(())
            },
            (LiquidSubmarinePhase::KeepClaim, Reply::Done) => {
                self.phase = LiquidSubmarinePhase::LoadRestartProof;
                Ok(())
            },
            (LiquidSubmarinePhase::LoadRestartProof, Reply::Document(Some(document))) => {
                self.restart_proof = document;
                self.phase = LiquidSubmarinePhase::AwaitReplay;
                Ok(())
            },
            (LiquidSubmarinePhase::LoadRestartProof, Reply::Document(None)) => {
                Err("Liquid submarine provider restart has no controller proof".to_owned())
            },
            (LiquidSubmarinePhase::AwaitReplay, Reply::Record(event)) => {
                if !same_text(event.id.as_str(), self.claim_status.as_str()) {
                    return Err("Liquid submarine restart replayed another claim effect".to_owned());
                }
                let found: String = status_transaction_id(&event)?;
                if !same_text(found.as_str(), self.claim_id.as_str()) {
                    return Err("Liquid submarine restart replayed another claim effect".to_owned());
                }
                self.phase = LiquidSubmarinePhase::AwaitClaimPropagated;
                Ok(())
            },
            (LiquidSubmarinePhase::AwaitClaimPropagated, Reply::Done) => {
                self.phase = LiquidSubmarinePhase::MineClaim;
                Ok(())
            },
            (LiquidSubmarinePhase::MineClaim, Reply::Done) => {
                self.phase = LiquidSubmarinePhase::AwaitClaimed;
                Ok(())
            },
            (LiquidSubmarinePhase::AwaitClaimed, Reply::Record(_)) => {
                self.phase = LiquidSubmarinePhase::AwaitCompleted;
                Ok(())
            },
            (LiquidSubmarinePhase::AwaitCompleted, Reply::Record(_)) => {
                self.phase = LiquidSubmarinePhase::CheckInvoicePaid;
                Ok(())
            },
            (LiquidSubmarinePhase::CheckInvoicePaid, Reply::Document(Some(listing))) => {
                let paid: () = verify_requester_invoice_paid(&listing, self.payment_hash.as_str())?;
                self.phase = LiquidSubmarinePhase::AwaitClose;
                Ok(())
            },
            (LiquidSubmarinePhase::AwaitClose, Reply::Record(event)) => {
                self.close_id = event.id;
                self.phase = LiquidSubmarinePhase::ReadFunding;
                Ok(())
            },
            (LiquidSubmarinePhase::ReadFunding, Reply::Texts(texts)) => {
                if texts.len() != 1 {
                    return Err(wrong_reply_text());
                }
                self.locked_hex = texts[0].clone();
                self.phase = LiquidSubmarinePhase::ReadClaim;
                Ok(())
            },
            (LiquidSubmarinePhase::ReadClaim, Reply::Texts(texts)) => {
                if texts.len() != 1 {
                    return Err(wrong_reply_text());
                }
                self.claim_hex = texts[0].clone();
                self.phase = LiquidSubmarinePhase::Finished;
                Ok(())
            },
            _ => Err(wrong_reply_text()),
        }
    }
}

/// Whether each entry of a trace leads to the one after it, from the first phase on.
pub open spec fn is_liquid_submarine_trace(
    trace: Seq<(LiquidSubmarineRunView, ReplyView)>,
) -> bool {
    &&& trace.len() > 0
    &&& trace[0].0.phase == LiquidSubmarinePhase::CheckNetwork
    &&& forall|i: int|
        0 <= i < trace.len() - 1 ==> liquid_submarine_step(
            (#[trigger] trace[i]).0,
            trace[i].1,
        ) == Ok::<
            LiquidSubmarineRunView,
            Seq<char>,
        >(trace[i + 1].0)
}

/// Each reply takes a Liquid submarine swap forward, never back and never in place.
pub proof fn law_liquid_submarine_moves_forward(run: LiquidSubmarineRunView, reply: ReplyView)
    requires
        liquid_submarine_step(run, reply) is Ok,
    ensures
        run.phase.rank() < liquid_submarine_step(run, reply)->Ok_0.phase.rank(),
{
}

/// Which replies take a Liquid submarine swap on, and to which phase: in each phase exactly the
/// replies that pass every check of that phase, and no others.
pub proof fn law_liquid_submarine_goes_on_only_when_answered(
    run: LiquidSubmarineRunView,
    reply: ReplyView,
)
    ensures
        ({
            let next = liquid_submarine_step(run, reply);
            match run.phase {
                LiquidSubmarinePhase::CheckNetwork => {
                    &&& next is Ok <==> {
                        &&& reply is Texts
                        &&& reply->Texts_0.len() == 2
                        &&& reply->Texts_0[0] == run.network_id
                        &&& reply->Texts_0[1] == run.pegged_asset
                    }
                    &&& next is Ok ==> next->Ok_0.phase == LiquidSubmarinePhase::CheckHealth
                },
                LiquidSubmarinePhase::CheckHealth => {
                    &&& next is Ok <==> reply is Done
                    &&& next is Ok ==> next->Ok_0.phase == LiquidSubmarinePhase::DiscoverOffering
                },
                LiquidSubmarinePhase::DiscoverOffering => {
                    &&& next is Ok <==> reply is Record
                    &&& next is Ok ==> next->Ok_0.phase == LiquidSubmarinePhase::CreateInvoice
                },
                LiquidSubmarinePhase::CreateInvoice => {
                    &&& next is Ok <==> {
                        &&& reply is Texts
                        &&& reply->Texts_0.len() == 2
                        &&& fixed_reading(
                            reply->Texts_0[0],
                            "Liquid submarine payment hash"@,
                            32,
                        ) is Ok
                    }
                    &&& next is Ok ==> next->Ok_0.phase == LiquidSubmarinePhase::PrepareOrder
                },
                LiquidSubmarinePhase::PrepareOrder => {
                    &&& next is Ok <==> reply is Funding
                    &&& next is Ok ==> next->Ok_0.phase == LiquidSubmarinePhase::AwaitAccepted
                },
                LiquidSubmarinePhase::AwaitAccepted => {
                    &&& next is Ok <==> reply is Record
                    &&& next is Ok ==> next->Ok_0.phase == LiquidSubmarinePhase::AwaitLockTerms
                },
                LiquidSubmarinePhase::AwaitLockTerms => {
                    &&& next is Ok <==> reply is Record
                    &&& next is Ok ==> next->Ok_0.phase == LiquidSubmarinePhase::AuthorizeFunding
                },
                LiquidSubmarinePhase::AuthorizeFunding => {
                    &&& next is Ok <==> reply is Done
                    &&& next is Ok ==> next->Ok_0.phase == LiquidSubmarinePhase::SayVerified
                },
                LiquidSubmarinePhase::SayVerified => {
                    &&& next is Ok <==> reply is Record
                    &&& next is Ok ==> next->Ok_0.phase == LiquidSubmarinePhase::KeepReady
                },
                LiquidSubmarinePhase::KeepReady => {
                    &&& next is Ok <==> reply is Done
                    &&& next is Ok ==> next->Ok_0.phase == LiquidSubmarinePhase::BroadcastFunding
                },
                LiquidSubmarinePhase::BroadcastFunding => {
                    &&& next is Ok <==> {
                        &&& reply is Texts
                        &&& reply->Texts_0.len() == 1
                        &&& reply->Texts_0[0] == run.funding_id
                    }
                    &&& next is Ok ==> next->Ok_0.phase == LiquidSubmarinePhase::RecordFunding
                },
                LiquidSubmarinePhase::RecordFunding => {
                    &&& next is Ok <==> reply is Done
                    &&& next is Ok ==> next->Ok_0.phase == LiquidSubmarinePhase::SayBroadcast
                },
                LiquidSubmarinePhase::SayBroadcast => {
                    &&& next is Ok <==> reply is Record
                    &&& next is Ok ==> next->Ok_0.phase == LiquidSubmarinePhase::AwaitFundingPropagated
                },
                LiquidSubmarinePhase::AwaitFundingPropagated => {
                    &&& next is Ok <==> reply is Done
                    &&& next is Ok ==> next->Ok_0.phase == LiquidSubmarinePhase::MineFunding
                },
                LiquidSubmarinePhase::MineFunding => {
                    &&& next is Ok <==> reply is Done
                    &&& next is Ok ==> next->Ok_0.phase == LiquidSubmarinePhase::AwaitObserved
                },
                LiquidSubmarinePhase::AwaitObserved => {
                    &&& next is Ok <==> reply is Record
                    &&& next is Ok ==> next->Ok_0.phase == LiquidSubmarinePhase::AwaitFinal
                },
                LiquidSubmarinePhase::AwaitFinal => {
                    &&& next is Ok <==> reply is Record
                    &&& next is Ok ==> next->Ok_0.phase == LiquidSubmarinePhase::AwaitPaymentPending
                },
                LiquidSubmarinePhase::AwaitPaymentPending => {
                    &&& next is Ok <==> reply is Record
                    &&& next is Ok ==> next->Ok_0.phase == LiquidSubmarinePhase::AwaitPaid
                },
                LiquidSubmarinePhase::AwaitPaid => {
                    &&& next is Ok <==> reply is Record
                    &&& next is Ok ==> next->Ok_0.phase == LiquidSubmarinePhase::AwaitClaim
                },
                LiquidSubmarinePhase::AwaitClaim => {
                    &&& next is Ok <==> {
                        &&& reply is Record
                        &&& transaction_reading(reply->Record_content) is Ok
                    }
                    &&& next is Ok ==> next->Ok_0.phase == LiquidSubmarinePhase::KeepClaim
                },
                LiquidSubmarinePhase::KeepClaim => {
                    &&& next is Ok <==> reply is Done
                    &&& next is Ok ==> next->Ok_0.phase == LiquidSubmarinePhase::LoadRestartProof
                },
                LiquidSubmarinePhase::LoadRestartProof => {
                    &&& next is Ok <==> {
                        &&& reply is Document
                        &&& reply->Document_0 is Some
                    }
                    &&& next is Ok ==> next->Ok_0.phase == LiquidSubmarinePhase::AwaitReplay
                },
                LiquidSubmarinePhase::AwaitReplay => {
                    &&& next is Ok <==> {
                        &&& reply is Record
                        &&& reply->Record_id == run.claim_status
                        &&& transaction_reading(reply->Record_content) is Ok
                        &&& transaction_reading(reply->Record_content)->Ok_0 == run.claim_id
                    }
                    &&& next is Ok ==> next->Ok_0.phase == LiquidSubmarinePhase::AwaitClaimPropagated
                },
                LiquidSubmarinePhase::AwaitClaimPropagated => {
                    &&& next is Ok <==> reply is Done
                    &&& next is Ok ==> next->Ok_0.phase == LiquidSubmarinePhase::MineClaim
                },
                LiquidSubmarinePhase::MineClaim => {
                    &&& next is Ok <==> reply is Done
                    &&& next is Ok ==> next->Ok_0.phase == LiquidSubmarinePhase::AwaitClaimed
                },
                LiquidSubmarinePhase::AwaitClaimed => {
                    &&& next is Ok <==> reply is Record
                    &&& next is Ok ==> next->Ok_0.phase == LiquidSubmarinePhase::AwaitCompleted
                },
                LiquidSubmarinePhase::AwaitCompleted => {
                    &&& next is Ok <==> reply is Record
                    &&& next is Ok ==> next->Ok_0.phase == LiquidSubmarinePhase::CheckInvoicePaid
                },
                LiquidSubmarinePhase::CheckInvoicePaid => {
                    &&& next is Ok <==> {
                        &&& reply is Document
                        &&& reply->Document_0 is Some
                        &&& invoice_paid_reading(reply->Document_0->0, run.payment_hash) is Ok
                    }
                    &&& next is Ok ==> next->Ok_0.phase == LiquidSubmarinePhase::AwaitClose
                },
                LiquidSubmarinePhase::AwaitClose => {
                    &&& next is Ok <==> reply is Record
                    &&& next is Ok ==> next->Ok_0.phase == LiquidSubmarinePhase::ReadFunding
                },
                LiquidSubmarinePhase::ReadFunding => {
                    &&& next is Ok <==> {
                        &&& reply is Texts
                        &&& reply->Texts_0.len() == 1
                    }
                    &&& next is Ok ==> next->Ok_0.phase == LiquidSubmarinePhase::ReadClaim
                },
                LiquidSubmarinePhase::ReadClaim => {
                    &&& next is Ok <==> {
                        &&& reply is Texts
                        &&& reply->Texts_0.len() == 1
                    }
                    &&& next is Ok ==> next->Ok_0.phase == LiquidSubmarinePhase::Finished
                },
                LiquidSubmarinePhase::Finished => next is Err,
            }
        }),
{
}

/// The reply that a trace of a Liquid submarine swap holds for a phase.
pub open spec fn liquid_submarine_told(
    trace: Seq<(LiquidSubmarineRunView, ReplyView)>,
    phase: LiquidSubmarinePhase,
) -> ReplyView {
    trace[choose|i: int| 0 <= i < trace.len() && (#[trigger] trace[i]).0.phase == phase].1
}

/// The values that a run of a Liquid submarine swap holds, by the replies that gave them: each
/// stays as the reply to one phase gave it, or as the run started with it.
pub open spec fn liquid_submarine_holds(
    trace: Seq<(LiquidSubmarineRunView, ReplyView)>,
    run: LiquidSubmarineRunView,
) -> bool {
    let start = trace[0].0;
    let offering_id = liquid_submarine_told(trace, LiquidSubmarinePhase::DiscoverOffering)->Record_id;
    let provider_pubkey = liquid_submarine_told(trace, LiquidSubmarinePhase::DiscoverOffering)->Record_pubkey;
    let payment_hash = liquid_submarine_told(trace, LiquidSubmarinePhase::CreateInvoice)->Texts_0[0];
    let invoice = liquid_submarine_told(trace, LiquidSubmarinePhase::CreateInvoice)->Texts_0[1];
    let funding_id = liquid_submarine_told(trace, LiquidSubmarinePhase::PrepareOrder)->Funding_id;
    let funding_output = liquid_submarine_told(trace, LiquidSubmarinePhase::PrepareOrder)->Funding_output_index;
    let funding_hex = liquid_submarine_told(trace, LiquidSubmarinePhase::PrepareOrder)->Funding_hex;
    let claim_status = liquid_submarine_told(trace, LiquidSubmarinePhase::AwaitClaim)->Record_id;
    let claim_id = transaction_reading(
        liquid_submarine_told(trace, LiquidSubmarinePhase::AwaitClaim)->Record_content,
    )->Ok_0;
    let restart_proof = liquid_submarine_told(trace, LiquidSubmarinePhase::LoadRestartProof)->Document_0->0;
    let close_id = liquid_submarine_told(trace, LiquidSubmarinePhase::AwaitClose)->Record_id;
    let locked_hex = liquid_submarine_told(trace, LiquidSubmarinePhase::ReadFunding)->Texts_0[0];
    let claim_hex = liquid_submarine_told(trace, LiquidSubmarinePhase::ReadClaim)->Texts_0[0];
    &&& run.confirmations == start.confirmations
    &&& run.network_id == start.network_id
    &&& run.pegged_asset == start.pegged_asset
    &&& run.invoice_amount_sat == start.invoice_amount_sat
    &&& run.phase.rank() > LiquidSubmarinePhase::DiscoverOffering.rank()
        ==> run.offering_id == offering_id
    &&& run.phase.rank() > LiquidSubmarinePhase::DiscoverOffering.rank()
        ==> run.provider_pubkey == provider_pubkey
    &&& run.phase.rank() > LiquidSubmarinePhase::CreateInvoice.rank()
        ==> run.payment_hash == payment_hash
    &&& run.phase.rank() > LiquidSubmarinePhase::CreateInvoice.rank() ==> run.invoice == invoice
    &&& run.phase.rank() > LiquidSubmarinePhase::PrepareOrder.rank()
        ==> run.funding_id == funding_id
    &&& run.phase.rank() > LiquidSubmarinePhase::PrepareOrder.rank()
        ==> run.funding_output == funding_output
    &&& run.phase.rank() > LiquidSubmarinePhase::PrepareOrder.rank()
        ==> run.funding_hex == funding_hex
    &&& run.phase.rank() > LiquidSubmarinePhase::AwaitClaim.rank()
        ==> run.claim_status == claim_status
    &&& run.phase.rank() > LiquidSubmarinePhase::AwaitClaim.rank() ==> run.claim_id == claim_id
    &&& run.phase.rank() > LiquidSubmarinePhase::LoadRestartProof.rank()
        ==> run.restart_proof == restart_proof
    &&& run.phase.rank() > LiquidSubmarinePhase::AwaitClose.rank() ==> run.close_id == close_id
    &&& run.phase.rank() > LiquidSubmarinePhase::ReadFunding.rank() ==> run.locked_hex == locked_hex
    &&& run.phase.rank() > LiquidSubmarinePhase::ReadClaim.rank() ==> run.claim_hex == claim_hex
}

/// No phase of a Liquid submarine swap comes twice in a trace.
proof fn lemma_liquid_submarine_told_once(
    trace: Seq<(LiquidSubmarineRunView, ReplyView)>,
    place: int,
)
    requires
        is_liquid_submarine_trace(trace),
        0 <= place < trace.len(),
    ensures
        liquid_submarine_told(trace, trace[place].0.phase) == trace[place].1,
{
    let phase = trace[place].0.phase;
    let other = choose|i: int| 0 <= i < trace.len() && (#[trigger] trace[i]).0.phase == phase;
    assert(trace[place].0.phase == phase);
    if other != place {
        let (early, late) = if other < place {
            (other, place)
        } else {
            (place, other)
        };
        assert forall|run: LiquidSubmarineRunView, reply: ReplyView|
            (#[trigger] liquid_submarine_step(run, reply)) is Ok implies run.phase.rank() < liquid_submarine_step(
            run,
            reply,
        )->Ok_0.phase.rank() by {
            law_liquid_submarine_moves_forward(run, reply);
        }
        lemma_ranks_rise(
            trace,
            |run: LiquidSubmarineRunView, reply: ReplyView| liquid_submarine_step(run, reply),
            |run: LiquidSubmarineRunView| run.phase.rank(),
            early,
            late,
        );
    }
}

/// A reply keeps what a Liquid submarine swap holds, and adds what it tells.
proof fn lemma_liquid_submarine_holds_on(
    trace: Seq<(LiquidSubmarineRunView, ReplyView)>,
    run: LiquidSubmarineRunView,
    reply: ReplyView,
)
    requires
        liquid_submarine_holds(trace, run),
        liquid_submarine_told(trace, run.phase) == reply,
        liquid_submarine_step(run, reply) is Ok,
    ensures
        liquid_submarine_holds(trace, liquid_submarine_step(run, reply)->Ok_0),
{
    let next = liquid_submarine_step(run, reply)->Ok_0;
    match run.phase {
        LiquidSubmarinePhase::CheckNetwork => assert(liquid_submarine_holds(trace, next)),
        LiquidSubmarinePhase::CheckHealth => assert(liquid_submarine_holds(trace, next)),
        LiquidSubmarinePhase::DiscoverOffering => assert(liquid_submarine_holds(trace, next)),
        LiquidSubmarinePhase::CreateInvoice => assert(liquid_submarine_holds(trace, next)),
        LiquidSubmarinePhase::PrepareOrder => assert(liquid_submarine_holds(trace, next)),
        LiquidSubmarinePhase::AwaitAccepted => assert(liquid_submarine_holds(trace, next)),
        LiquidSubmarinePhase::AwaitLockTerms => assert(liquid_submarine_holds(trace, next)),
        LiquidSubmarinePhase::AuthorizeFunding => assert(liquid_submarine_holds(trace, next)),
        LiquidSubmarinePhase::SayVerified => assert(liquid_submarine_holds(trace, next)),
        LiquidSubmarinePhase::KeepReady => assert(liquid_submarine_holds(trace, next)),
        LiquidSubmarinePhase::BroadcastFunding => assert(liquid_submarine_holds(trace, next)),
        LiquidSubmarinePhase::RecordFunding => assert(liquid_submarine_holds(trace, next)),
        LiquidSubmarinePhase::SayBroadcast => assert(liquid_submarine_holds(trace, next)),
        LiquidSubmarinePhase::AwaitFundingPropagated => assert(liquid_submarine_holds(trace, next)),
        LiquidSubmarinePhase::MineFunding => assert(liquid_submarine_holds(trace, next)),
        LiquidSubmarinePhase::AwaitObserved => assert(liquid_submarine_holds(trace, next)),
        LiquidSubmarinePhase::AwaitFinal => assert(liquid_submarine_holds(trace, next)),
        LiquidSubmarinePhase::AwaitPaymentPending => assert(liquid_submarine_holds(trace, next)),
        LiquidSubmarinePhase::AwaitPaid => assert(liquid_submarine_holds(trace, next)),
        LiquidSubmarinePhase::AwaitClaim => assert(liquid_submarine_holds(trace, next)),
        LiquidSubmarinePhase::KeepClaim => assert(liquid_submarine_holds(trace, next)),
        LiquidSubmarinePhase::LoadRestartProof => assert(liquid_submarine_holds(trace, next)),
        LiquidSubmarinePhase::AwaitReplay => assert(liquid_submarine_holds(trace, next)),
        LiquidSubmarinePhase::AwaitClaimPropagated => assert(liquid_submarine_holds(trace, next)),
        LiquidSubmarinePhase::MineClaim => assert(liquid_submarine_holds(trace, next)),
        LiquidSubmarinePhase::AwaitClaimed => assert(liquid_submarine_holds(trace, next)),
        LiquidSubmarinePhase::AwaitCompleted => assert(liquid_submarine_holds(trace, next)),
        LiquidSubmarinePhase::CheckInvoicePaid => assert(liquid_submarine_holds(trace, next)),
        LiquidSubmarinePhase::AwaitClose => assert(liquid_submarine_holds(trace, next)),
        LiquidSubmarinePhase::ReadFunding => assert(liquid_submarine_holds(trace, next)),
        LiquidSubmarinePhase::ReadClaim => assert(liquid_submarine_holds(trace, next)),
        LiquidSubmarinePhase::Finished => assert(liquid_submarine_holds(trace, next)),
    }
}

/// What a Liquid submarine swap has been told, it keeps: at every place of a trace each value that
/// the run holds is the one that the reply to the phase that asks for it gave, or the one that the
/// run started with.
pub proof fn law_liquid_submarine_keeps_what_it_was_told(
    trace: Seq<(LiquidSubmarineRunView, ReplyView)>,
    last: int,
)
    requires
        is_liquid_submarine_trace(trace),
        0 <= last < trace.len(),
    ensures
        liquid_submarine_holds(trace, trace[last].0),
    decreases last,
{
    if last > 0 {
        let before = last - 1;
        law_liquid_submarine_keeps_what_it_was_told(trace, before);
        lemma_liquid_submarine_told_once(trace, before);
        assert(liquid_submarine_step(trace[before].0, trace[before].1) == Ok::<LiquidSubmarineRunView, Seq<char>>(
            trace[before + 1].0,
        ));
        lemma_liquid_submarine_holds_on(trace, trace[before].0, trace[before].1);
    }
}

/// What a Liquid submarine swap asks for in each phase, in terms of the replies before it: the
/// values in a request are those that the replies to the named phases gave, or those that the run
/// started with.
pub proof fn law_liquid_submarine_asks_with_what_it_was_told(
    trace: Seq<(LiquidSubmarineRunView, ReplyView)>,
    last: int,
)
    requires
        is_liquid_submarine_trace(trace),
        0 <= last < trace.len(),
    ensures
        ({
            let start = trace[0].0;
            let payment_hash = liquid_submarine_told(trace, LiquidSubmarinePhase::CreateInvoice)->Texts_0[0];
            let invoice = liquid_submarine_told(trace, LiquidSubmarinePhase::CreateInvoice)->Texts_0[1];
            let funding_id = liquid_submarine_told(trace, LiquidSubmarinePhase::PrepareOrder)->Funding_id;
            let funding_output = liquid_submarine_told(trace, LiquidSubmarinePhase::PrepareOrder)->Funding_output_index;
            let funding_hex = liquid_submarine_told(trace, LiquidSubmarinePhase::PrepareOrder)->Funding_hex;
            let claim_id = transaction_reading(
                liquid_submarine_told(trace, LiquidSubmarinePhase::AwaitClaim)->Record_content,
            )->Ok_0;
            let action = liquid_submarine_action(trace[last].0);
            match trace[last].0.phase {
                LiquidSubmarinePhase::CheckNetwork => action == ActionView::Perform(
                    Task::ReadLiquidNetwork,
                    seq![],
                ),
                LiquidSubmarinePhase::CheckHealth => action == ActionView::CheckHealth,
                LiquidSubmarinePhase::DiscoverOffering => action == ActionView::Perform(
                    Task::DiscoverOffering,
                    seq![],
                ),
                LiquidSubmarinePhase::CreateInvoice => action == ActionView::Perform(
                    Task::CreateInvoice,
                    seq![
                        "immortal-liquid-submarine"@,
                        decimal(start.invoice_amount_sat as nat),
                        "Immortal Liquid submarine route"@,
                        decimal(INVOICE_EXPIRY_SECONDS as nat),
                    ],
                ),
                LiquidSubmarinePhase::PrepareOrder => action == ActionView::Perform(
                    Task::PrepareOrder,
                    seq![payment_hash, invoice],
                ),
                LiquidSubmarinePhase::AwaitAccepted => action == ActionView::AwaitState(
                    "accepted"@,
                ),
                LiquidSubmarinePhase::AwaitLockTerms => action == ActionView::AwaitState(
                    "lock_terms_ready"@,
                ),
                LiquidSubmarinePhase::AuthorizeFunding => action == ActionView::Perform(
                    Task::AuthorizeFunding,
                    seq![invoice],
                ),
                LiquidSubmarinePhase::SayVerified => action == ActionView::Say(
                    "requester_verification_passed"@,
                    no_members(),
                ),
                LiquidSubmarinePhase::KeepReady => action == ActionView::Keep(
                    "funding_execution_ready"@,
                    effect_doc(funding_id),
                ),
                LiquidSubmarinePhase::BroadcastFunding => action == ActionView::Perform(
                    Task::BroadcastFunding,
                    seq!["liquid"@],
                ),
                LiquidSubmarinePhase::RecordFunding => action == ActionView::Perform(
                    Task::RecordFundingEffect,
                    seq![funding_id, funding_hex, "hex-bytes"@],
                ),
                LiquidSubmarinePhase::SayBroadcast => action == ActionView::Say(
                    "requester_funding_broadcast"@,
                    no_members().insert("transaction_id"@, text_doc(funding_id)).insert(
                        "output_index"@,
                        number_doc(funding_output as u64),
                    ),
                ),
                LiquidSubmarinePhase::AwaitFundingPropagated => action == ActionView::AwaitTransaction(
                    "liquid"@,
                    funding_id,
                    "liquid-submarine-funding-propagation"@,
                ),
                LiquidSubmarinePhase::MineFunding => action == ActionView::Mine(
                    "liquid"@,
                    start.confirmations,
                    "liquid-submarine-funding"@,
                ),
                LiquidSubmarinePhase::AwaitObserved => action == ActionView::AwaitState(
                    "funding_observed"@,
                ),
                LiquidSubmarinePhase::AwaitFinal => action == ActionView::AwaitState(
                    "funding_final"@,
                ),
                LiquidSubmarinePhase::AwaitPaymentPending => action == ActionView::AwaitState(
                    "lightning_payment_pending"@,
                ),
                LiquidSubmarinePhase::AwaitPaid => action == ActionView::AwaitState(
                    "lightning_paid"@,
                ),
                LiquidSubmarinePhase::AwaitClaim => action == ActionView::AwaitState(
                    "provider_claim_pending"@,
                ),
                LiquidSubmarinePhase::KeepClaim => action == ActionView::Keep(
                    "provider_claim_effect_recorded"@,
                    effect_doc(claim_id),
                ),
                LiquidSubmarinePhase::LoadRestartProof => action == ActionView::LoadControllerProof,
                LiquidSubmarinePhase::AwaitReplay => action == ActionView::AwaitState(
                    "provider_claim_pending"@,
                ),
                LiquidSubmarinePhase::AwaitClaimPropagated => action == ActionView::AwaitTransaction(
                    "liquid"@,
                    claim_id,
                    "liquid-submarine-claim-propagation"@,
                ),
                LiquidSubmarinePhase::MineClaim => action == ActionView::Mine(
                    "liquid"@,
                    start.confirmations,
                    "liquid-submarine-claim"@,
                ),
                LiquidSubmarinePhase::AwaitClaimed => action == ActionView::AwaitState(
                    "provider_claimed"@,
                ),
                LiquidSubmarinePhase::AwaitCompleted => action == ActionView::AwaitState(
                    "completed"@,
                ),
                LiquidSubmarinePhase::CheckInvoicePaid => action == ActionView::Perform(
                    Task::CheckInvoicePaid,
                    seq!["liquid-terminal-invoice"@],
                ),
                LiquidSubmarinePhase::AwaitClose => action == ActionView::AwaitClose(
                    CloseCheckView {
                        outcome: "completed"@,
                        bitcoin: None,
                        liquid: Some(claim_id),
                        lightning: Some(LightningView::Incoming(payment_hash)),
                    },
                ),
                LiquidSubmarinePhase::ReadFunding => action == ActionView::ReadTransaction(
                    "liquid"@,
                    funding_id,
                    "liquid-submarine-funding-proof"@,
                ),
                LiquidSubmarinePhase::ReadClaim => action == ActionView::ReadTransaction(
                    "liquid"@,
                    claim_id,
                    "liquid-submarine-claim-proof"@,
                ),
                LiquidSubmarinePhase::Finished => action == ActionView::Finish,
            }
        }),
{
    law_liquid_submarine_keeps_what_it_was_told(trace, last);
}

/// The contract is funded only after the client has authorized it.
pub proof fn law_liquid_submarine_funds_only_when_authorized(
    trace: Seq<(LiquidSubmarineRunView, ReplyView)>,
    last: int,
)
    requires
        is_liquid_submarine_trace(trace),
        0 <= last < trace.len(),
        trace[last].0.phase == LiquidSubmarinePhase::BroadcastFunding,
    ensures
        exists|i: int|
            0 <= i < last && (#[trigger] trace[i]).0.phase == LiquidSubmarinePhase::AuthorizeFunding
                && trace[i].1 == ReplyView::Done,
{
    let i = lemma_milestone(
        trace,
        |run: LiquidSubmarineRunView, reply: ReplyView| liquid_submarine_step(run, reply),
        |run: LiquidSubmarineRunView| run.phase.rank(),
        7,
        last,
    );
    assert(trace[i].0.phase == LiquidSubmarinePhase::AuthorizeFunding);
    assert(liquid_submarine_step(trace[i].0, trace[i].1) == Ok::<LiquidSubmarineRunView,
        Seq<char>>(trace[i + 1].0));
}

/// Whether every reply of a trace answers the action that it is told for.
pub open spec fn is_answered_liquid_submarine(
    trace: Seq<(LiquidSubmarineRunView, ReplyView)>,
    kinds: RecordKinds,
    provider: Seq<char>,
) -> bool {
    forall|i: int|
        0 <= i < trace.len() - 1 ==> answers(
            liquid_submarine_action((#[trigger] trace[i]).0),
            trace[i].1,
            kinds,
            provider,
        )
}

/// The claim is accepted only after the restarted provider has repeated it.
pub proof fn law_liquid_submarine_checks_the_replay(
    trace: Seq<(LiquidSubmarineRunView, ReplyView)>,
    kinds: RecordKinds,
    provider: Seq<char>,
    last: int,
)
    requires
        is_liquid_submarine_trace(trace),
        is_answered_liquid_submarine(trace, kinds, provider),
        0 <= last < trace.len(),
        trace[last].0.phase == LiquidSubmarinePhase::AwaitClose,
    ensures
        exists|i: int|
            0 <= i < last && (#[trigger] trace[i]).0.phase == LiquidSubmarinePhase::AwaitReplay &&
                says(
                trace[i].1,
                kinds,
                provider,
                "provider_claim_pending"@,
            ),
{
    let i = lemma_milestone(
        trace,
        |run: LiquidSubmarineRunView, reply: ReplyView| liquid_submarine_step(run, reply),
        |run: LiquidSubmarineRunView| run.phase.rank(),
        22,
        last,
    );
    assert(trace[i].0.phase == LiquidSubmarinePhase::AwaitReplay);
    assert(answers(liquid_submarine_action(trace[i].0), trace[i].1, kinds, provider));
}

/// The swap finishes only after the requester's own node shows the invoice as paid.
pub proof fn law_liquid_submarine_ends_paid(
    trace: Seq<(LiquidSubmarineRunView, ReplyView)>,
    last: int,
)
    requires
        is_liquid_submarine_trace(trace),
        0 <= last < trace.len(),
        trace[last].0.phase == LiquidSubmarinePhase::Finished,
    ensures
        exists|i: int|
            0 <= i < last && (#[trigger] trace[i]).0.phase == LiquidSubmarinePhase::CheckInvoicePaid
                && (trace[i].1 matches ReplyView::Document(Some(listing)) &&
                invoice_paid_reading(listing, trace[i].0.payment_hash) is Ok),
{
    let i = lemma_milestone(
        trace,
        |run: LiquidSubmarineRunView, reply: ReplyView| liquid_submarine_step(run, reply),
        |run: LiquidSubmarineRunView| run.phase.rank(),
        27,
        last,
    );
    assert(trace[i].0.phase == LiquidSubmarinePhase::CheckInvoicePaid);
    assert(liquid_submarine_step(trace[i].0, trace[i].1) == Ok::<LiquidSubmarineRunView,
        Seq<char>>(trace[i + 1].0));
}

/// What the end of a Liquid submarine swap reads as: its proof, or what is missing from it.
pub open spec fn liquid_submarine_proof_reading(
    run: LiquidSubmarineRunView,
    provider_index: usize,
    records: Seq<Event>,
    kinds: RecordKinds,
) -> Result<JsonView, Seq<char>> {
    match chain_lifecycle_reading(
        records,
        kinds,
        run.offering_id,
        run.provider_pubkey,
        run.close_id,
    ) {
        Err(message) => Err(message),
        Ok(lifecycle) => Ok(
            route_proof_doc(
                "liquid-submarine"@,
                provider_index,
                lifecycle,
                leg_proof_doc(
                    "liquid"@,
                    run.funding_id,
                    run.funding_output,
                    run.locked_hex,
                    run.claim_id,
                    run.claim_hex,
                ),
                seq!["liquid_submarine_claim"@],
                seq!["provider_claim_pending"@, "provider_claimed"@],
                "provider"@,
                "claim"@,
                run.payment_hash,
                run.restart_proof,
            ),
        ),
    }
}

/// What the end of a Liquid submarine swap reads as: it can be had exactly where every part that it
/// rests on can, and each part of it is the one that its name says.
pub proof fn law_liquid_submarine_proof_is_read_from_its_parts(
    run: LiquidSubmarineRunView,
    provider_index: usize,
    records: Seq<Event>,
    kinds: RecordKinds,
)
    ensures
        ({
            let read = liquid_submarine_proof_reading(run, provider_index, records, kinds);
            let given = read->Ok_0;
            &&& read is Ok <==> {
                &&& chain_lifecycle_reading(
                    records,
                    kinds,
                    run.offering_id,
                    run.provider_pubkey,
                    run.close_id,
                ) is Ok
            }
            &&& read is Ok ==> {
                &&& given == route_proof_doc(
                    "liquid-submarine"@,
                    provider_index,
                    chain_lifecycle_reading(
                        records,
                        kinds,
                        run.offering_id,
                        run.provider_pubkey,
                        run.close_id,
                    )->Ok_0,
                    leg_proof_doc(
                        "liquid"@,
                        run.funding_id,
                        run.funding_output,
                        run.locked_hex,
                        run.claim_id,
                        run.claim_hex,
                    ),
                    seq!["liquid_submarine_claim"@],
                    seq!["provider_claim_pending"@, "provider_claimed"@],
                    "provider"@,
                    "claim"@,
                    run.payment_hash,
                    run.restart_proof,
                )
            }
        }),
{
}

impl LiquidSubmarineRun {
    /// The proof of the finished swap, from the records that were signed in it; nothing before it
    /// is over.
    pub fn process_proof(
        &self,
        provider_index: usize,
        records: &Vec<Event>,
        kinds: RecordKinds,
    ) -> (proven: Option<Result<Json, String>>)
        ensures
            match proven {
                Some(proven) => self@.phase == LiquidSubmarinePhase::Finished && told_json(proven) == liquid_submarine_proof_reading(
                    self@,
                    provider_index,
                    records@,
                    kinds,
                ),
                None => self@.phase != LiquidSubmarinePhase::Finished,
            },
    {
        if self.phase == LiquidSubmarinePhase::Finished {
            Some(self.proof_document(provider_index, records, kinds))
        } else {
            None
        }
    }

    fn proof_document(&self, provider_index: usize, records: &Vec<Event>, kinds: RecordKinds) -> (
    proven: Result<Json, String>)
        ensures
            told_json(proven) == liquid_submarine_proof_reading(
                self@,
                provider_index,
                records@,
                kinds,
            ),
    {
        let lifecycle: Json = chain_lifecycle_event_ids(
            records,
            kinds,
            self.offering_id.as_str(),
            self.provider_pubkey.as_str(),
            self.close_id.as_str(),
        )?;
        let rail: Json = chain_leg_process_proof(
            "liquid",
            self.funding_id.as_str(),
            self.funding_output,
            self.locked_hex.as_str(),
            self.claim_id.as_str(),
            self.claim_hex.as_str(),
        );
        let operations: Vec<&str> = vec!["liquid_submarine_claim"];
        let anchors: Vec<&str> = vec!["provider_claim_pending", "provider_claimed"];
        assert(name_views(operations@) =~= seq!["liquid_submarine_claim"@]);
        assert(name_views(anchors@) =~= seq!["provider_claim_pending"@, "provider_claimed"@]);
        Ok(
            liquid_route_proof(
                "liquid-submarine",
                provider_index,
                lifecycle,
                rail,
                &operations,
                &anchors,
                "provider",
                "claim",
                self.payment_hash.as_str(),
                &self.restart_proof,
            ),
        )
    }
}

/// The phases of a Liquid reverse swap, in their order.
#[derive(Clone, Copy, Debug, PartialEq, Eq, Structural)]
pub enum LiquidReversePhase {
    CheckNetwork,
    CheckHealth,
    DiscoverOffering,
    StoreSecret,
    PrepareOrder,
    AwaitAccepted,
    AwaitInvoice,
    SayInvoiceVerified,
    StartPayment,
    SayPaymentPending,
    AwaitHeld,
    AwaitLockTerms,
    ObserveTemplate,
    SayLockVerified,
    AwaitFunding,
    AwaitFundingPropagated,
    MineFunding,
    AwaitObserved,
    AwaitFinal,
    AuthorizeFunding,
    RecordFunding,
    KeepFunding,
    LoadRestartProof,
    AwaitReplay,
    SayClaimPending,
    ExecuteClaim,
    KeepClaim,
    RemoveSecret,
    SayClaimed,
    AwaitClaimPropagated,
    MineClaim,
    AwaitSettlement,
    AwaitPaid,
    AwaitCompleted,
    JoinPayment,
    AwaitPaymentEnd,
    AwaitClose,
    ReadFunding,
    ReadClaim,
    Finished,
}

impl LiquidReversePhase {
    /// The place of the phase in their order.
    pub open spec fn rank(self) -> int {
        match self {
            LiquidReversePhase::CheckNetwork => 0,
            LiquidReversePhase::CheckHealth => 1,
            LiquidReversePhase::DiscoverOffering => 2,
            LiquidReversePhase::StoreSecret => 3,
            LiquidReversePhase::PrepareOrder => 4,
            LiquidReversePhase::AwaitAccepted => 5,
            LiquidReversePhase::AwaitInvoice => 6,
            LiquidReversePhase::SayInvoiceVerified => 7,
            LiquidReversePhase::StartPayment => 8,
            LiquidReversePhase::SayPaymentPending => 9,
            LiquidReversePhase::AwaitHeld => 10,
            LiquidReversePhase::AwaitLockTerms => 11,
            LiquidReversePhase::ObserveTemplate => 12,
            LiquidReversePhase::SayLockVerified => 13,
            LiquidReversePhase::AwaitFunding => 14,
            LiquidReversePhase::AwaitFundingPropagated => 15,
            LiquidReversePhase::MineFunding => 16,
            LiquidReversePhase::AwaitObserved => 17,
            LiquidReversePhase::AwaitFinal => 18,
            LiquidReversePhase::AuthorizeFunding => 19,
            LiquidReversePhase::RecordFunding => 20,
            LiquidReversePhase::KeepFunding => 21,
            LiquidReversePhase::LoadRestartProof => 22,
            LiquidReversePhase::AwaitReplay => 23,
            LiquidReversePhase::SayClaimPending => 24,
            LiquidReversePhase::ExecuteClaim => 25,
            LiquidReversePhase::KeepClaim => 26,
            LiquidReversePhase::RemoveSecret => 27,
            LiquidReversePhase::SayClaimed => 28,
            LiquidReversePhase::AwaitClaimPropagated => 29,
            LiquidReversePhase::MineClaim => 30,
            LiquidReversePhase::AwaitSettlement => 31,
            LiquidReversePhase::AwaitPaid => 32,
            LiquidReversePhase::AwaitCompleted => 33,
            LiquidReversePhase::JoinPayment => 34,
            LiquidReversePhase::AwaitPaymentEnd => 35,
            LiquidReversePhase::AwaitClose => 36,
            LiquidReversePhase::ReadFunding => 37,
            LiquidReversePhase::ReadClaim => 38,
            LiquidReversePhase::Finished => 39,
        }
    }
}

/// A swap from Lightning to Liquid, with a provider restart before its claim.
pub struct LiquidReverseRun {
    pub phase: LiquidReversePhase,
    pub confirmations: u64,
    pub network_id: String,
    pub pegged_asset: String,
    pub offering_id: String,
    pub provider_pubkey: String,
    pub payment_hash: String,
    pub invoice: String,
    pub expected_id: String,
    pub expected_output: u32,
    pub funding_status: String,
    pub funding_id: String,
    pub funding_output: u32,
    pub restart_proof: Json,
    pub claim_id: String,
    pub signed_claim_hex: String,
    pub close_id: String,
    pub funding_hex: String,
    pub claim_hex: String,
}

/// A swap from Lightning to Liquid, with a provider restart before its claim.
#[verifier::ext_equal]
pub struct LiquidReverseRunView {
    pub phase: LiquidReversePhase,
    pub confirmations: u64,
    pub network_id: Seq<char>,
    pub pegged_asset: Seq<char>,
    pub offering_id: Seq<char>,
    pub provider_pubkey: Seq<char>,
    pub payment_hash: Seq<char>,
    pub invoice: Seq<char>,
    pub expected_id: Seq<char>,
    pub expected_output: u32,
    pub funding_status: Seq<char>,
    pub funding_id: Seq<char>,
    pub funding_output: u32,
    pub restart_proof: JsonView,
    pub claim_id: Seq<char>,
    pub signed_claim_hex: Seq<char>,
    pub close_id: Seq<char>,
    pub funding_hex: Seq<char>,
    pub claim_hex: Seq<char>,
}

impl View for LiquidReverseRun {
    type V = LiquidReverseRunView;

    open spec fn view(&self) -> LiquidReverseRunView {
        LiquidReverseRunView {
            phase: self.phase,
            confirmations: self.confirmations,
            network_id: self.network_id@,
            pegged_asset: self.pegged_asset@,
            offering_id: self.offering_id@,
            provider_pubkey: self.provider_pubkey@,
            payment_hash: self.payment_hash@,
            invoice: self.invoice@,
            expected_id: self.expected_id@,
            expected_output: self.expected_output,
            funding_status: self.funding_status@,
            funding_id: self.funding_id@,
            funding_output: self.funding_output,
            restart_proof: self.restart_proof@,
            claim_id: self.claim_id@,
            signed_claim_hex: self.signed_claim_hex@,
            close_id: self.close_id@,
            funding_hex: self.funding_hex@,
            claim_hex: self.claim_hex@,
        }
    }
}

/// What a Liquid reverse swap asks for next.
pub open spec fn liquid_reverse_action(run: LiquidReverseRunView) -> ActionView {
    match run.phase {
        LiquidReversePhase::CheckNetwork => ActionView::Perform(Task::ReadLiquidNetwork, seq![]),
        LiquidReversePhase::CheckHealth => ActionView::CheckHealth,
        LiquidReversePhase::DiscoverOffering => ActionView::Perform(Task::DiscoverOffering, seq![]),
        LiquidReversePhase::StoreSecret => ActionView::Perform(
            Task::StoreSecret,
            seq!["liquid_reverse"@],
        ),
        LiquidReversePhase::PrepareOrder => ActionView::Perform(
            Task::PrepareOrder,
            seq![run.payment_hash],
        ),
        LiquidReversePhase::AwaitAccepted => ActionView::AwaitState("accepted"@),
        LiquidReversePhase::AwaitInvoice => ActionView::AwaitState("hold_invoice_ready"@),
        LiquidReversePhase::SayInvoiceVerified => ActionView::Say(
            "requester_invoice_verified"@,
            no_members(),
        ),
        LiquidReversePhase::StartPayment => ActionView::Perform(
            Task::StartPayment,
            seq!["liquid_reverse"@, run.invoice, run.payment_hash],
        ),
        LiquidReversePhase::SayPaymentPending => ActionView::Say(
            "lightning_payment_pending"@,
            no_members(),
        ),
        LiquidReversePhase::AwaitHeld => ActionView::AwaitState("lightning_htlcs_held"@),
        LiquidReversePhase::AwaitLockTerms => ActionView::AwaitState("provider_lock_terms_ready"@),
        LiquidReversePhase::ObserveTemplate => ActionView::Perform(
            Task::ObserveTemplate,
            seq!["liquid-reverse-template-preflight"@],
        ),
        LiquidReversePhase::SayLockVerified => ActionView::Say(
            "requester_lock_verified"@,
            no_members(),
        ),
        LiquidReversePhase::AwaitFunding => ActionView::AwaitState("provider_funding_broadcast"@),
        LiquidReversePhase::AwaitFundingPropagated => ActionView::AwaitTransaction(
            "liquid"@,
            run.funding_id,
            "liquid-reverse-funding-propagation"@,
        ),
        LiquidReversePhase::MineFunding => ActionView::Mine(
            "liquid"@,
            run.confirmations,
            "liquid-reverse-funding"@,
        ),
        LiquidReversePhase::AwaitObserved => ActionView::AwaitState("funding_observed"@),
        LiquidReversePhase::AwaitFinal => ActionView::AwaitState("funding_final"@),
        LiquidReversePhase::AuthorizeFunding => ActionView::Perform(
            Task::AuthorizeFunding,
            seq![run.invoice],
        ),
        LiquidReversePhase::RecordFunding => ActionView::Perform(
            Task::RecordFundingEffect,
            seq![run.payment_hash, run.payment_hash, "digest"@],
        ),
        LiquidReversePhase::KeepFunding => ActionView::Keep(
            "provider_funding_effect_recorded"@,
            effect_doc(run.funding_id),
        ),
        LiquidReversePhase::LoadRestartProof => ActionView::LoadControllerProof,
        LiquidReversePhase::AwaitReplay => ActionView::AwaitState("provider_funding_broadcast"@),
        LiquidReversePhase::SayClaimPending => ActionView::Say(
            "requester_claim_pending"@,
            no_members(),
        ),
        LiquidReversePhase::ExecuteClaim => ActionView::Perform(
            Task::ExecuteLiquidClaim,
            seq!["destination"@, "liquid_reverse"@, "liquid-reverse-claim"@],
        ),
        LiquidReversePhase::KeepClaim => ActionView::Keep(
            "liquid_claim_broadcast_recorded"@,
            effect_doc(run.claim_id),
        ),
        LiquidReversePhase::RemoveSecret => ActionView::Perform(
            Task::RemoveSecret,
            seq!["liquid_reverse"@],
        ),
        LiquidReversePhase::SayClaimed => ActionView::Say(
            "requester_claimed"@,
            no_members().insert("transaction_id"@, text_doc(run.claim_id)),
        ),
        LiquidReversePhase::AwaitClaimPropagated => ActionView::AwaitTransaction(
            "liquid"@,
            run.claim_id,
            "liquid-reverse-claim-propagation"@,
        ),
        LiquidReversePhase::MineClaim => ActionView::Mine(
            "liquid"@,
            run.confirmations,
            "liquid-reverse-claim"@,
        ),
        LiquidReversePhase::AwaitSettlement => ActionView::AwaitState(
            "lightning_settlement_pending"@,
        ),
        LiquidReversePhase::AwaitPaid => ActionView::AwaitState("lightning_paid"@),
        LiquidReversePhase::AwaitCompleted => ActionView::AwaitState("completed"@),
        LiquidReversePhase::JoinPayment => ActionView::Perform(Task::JoinPayment, seq![]),
        LiquidReversePhase::AwaitPaymentEnd => ActionView::Perform(
            Task::AwaitPaymentEnd,
            seq![run.invoice, run.payment_hash],
        ),
        LiquidReversePhase::AwaitClose => ActionView::AwaitClose(
            CloseCheckView {
                outcome: "completed"@,
                bitcoin: None,
                liquid: Some(run.claim_id),
                lightning: Some(
                    LightningView::Outgoing(run.invoice, run.payment_hash, "complete"@),
                ),
            },
        ),
        LiquidReversePhase::ReadFunding => ActionView::ReadTransaction(
            "liquid"@,
            run.funding_id,
            "liquid-reverse-funding-proof"@,
        ),
        LiquidReversePhase::ReadClaim => ActionView::ReadTransaction(
            "liquid"@,
            run.claim_id,
            "liquid-reverse-claim-proof"@,
        ),
        LiquidReversePhase::Finished => ActionView::Finish,
    }
}

/// Where a reply takes a Liquid reverse swap.
pub open spec fn liquid_reverse_step(run: LiquidReverseRunView, reply: ReplyView) -> Result<
    LiquidReverseRunView,
    Seq<char>,
> {
    match (run.phase, reply) {
        (LiquidReversePhase::CheckNetwork, ReplyView::Texts(texts)) => {
            if texts.len() != 2 {
                Err(wrong_reply())
            } else if texts[0] != run.network_id || texts[1] != run.pegged_asset {
                Err("requester elementsd differs from the configured Liquid network"@)
            } else {
                Ok(LiquidReverseRunView { phase: LiquidReversePhase::CheckHealth, ..run })
            }
        },
        (LiquidReversePhase::CheckHealth, ReplyView::Done) => Ok(
            LiquidReverseRunView { phase: LiquidReversePhase::DiscoverOffering, ..run },
        ),
        (LiquidReversePhase::DiscoverOffering, ReplyView::Record { id, pubkey, tags, content, .. }) => Ok(
            LiquidReverseRunView {
                phase: LiquidReversePhase::StoreSecret,
                offering_id: id,
                provider_pubkey: pubkey,
                ..run
            },
        ),
        (LiquidReversePhase::StoreSecret, ReplyView::Texts(texts)) => {
            if texts.len() != 1 {
                Err(wrong_reply())
            } else {
                Ok(
                    LiquidReverseRunView {
                        phase: LiquidReversePhase::PrepareOrder,
                        payment_hash: texts[0],
                        ..run
                    },
                )
            }
        },
        (LiquidReversePhase::PrepareOrder, ReplyView::Done) => Ok(
            LiquidReverseRunView { phase: LiquidReversePhase::AwaitAccepted, ..run },
        ),
        (LiquidReversePhase::AwaitAccepted, ReplyView::Record { .. }) => Ok(
            LiquidReverseRunView { phase: LiquidReversePhase::AwaitInvoice, ..run },
        ),
        (LiquidReversePhase::AwaitInvoice, ReplyView::Record { id, pubkey, tags, content, .. }) => match profile_reading(
            content,
        ) {
            Err(message) => Err(message),
            Ok(profile) => match said(profile, "invoice"@) {
                None => Err("Liquid reverse hold-invoice Status has no invoice"@),
                Some(invoice) => Ok(
                    LiquidReverseRunView {
                        phase: LiquidReversePhase::SayInvoiceVerified,
                        invoice: invoice,
                        ..run
                    },
                ),
            },
        },
        (LiquidReversePhase::SayInvoiceVerified, ReplyView::Record { .. }) => Ok(
            LiquidReverseRunView { phase: LiquidReversePhase::StartPayment, ..run },
        ),
        (LiquidReversePhase::StartPayment, ReplyView::Done) => Ok(
            LiquidReverseRunView { phase: LiquidReversePhase::SayPaymentPending, ..run },
        ),
        (LiquidReversePhase::SayPaymentPending, ReplyView::Record { .. }) => Ok(
            LiquidReverseRunView { phase: LiquidReversePhase::AwaitHeld, ..run },
        ),
        (LiquidReversePhase::AwaitHeld, ReplyView::Record { .. }) => Ok(
            LiquidReverseRunView { phase: LiquidReversePhase::AwaitLockTerms, ..run },
        ),
        (LiquidReversePhase::AwaitLockTerms, ReplyView::Record { .. }) => Ok(
            LiquidReverseRunView { phase: LiquidReversePhase::ObserveTemplate, ..run },
        ),
        (LiquidReversePhase::ObserveTemplate, ReplyView::Funding { receipt, id, output_index, hex }) => Ok(
            LiquidReverseRunView {
                phase: LiquidReversePhase::SayLockVerified,
                expected_id: id,
                expected_output: output_index,
                ..run
            },
        ),
        (LiquidReversePhase::SayLockVerified, ReplyView::Record { .. }) => Ok(
            LiquidReverseRunView { phase: LiquidReversePhase::AwaitFunding, ..run },
        ),
        (LiquidReversePhase::AwaitFunding, ReplyView::Record { id, pubkey, tags, content, .. }) => match outpoint_reading(
            content,
        ) {
            Err(message) => Err(message),
            Ok(found) => {
                if found != (run.expected_id, run.expected_output) {
                    Err("provider broadcast another Liquid reverse funding transaction"@)
                } else {
                    Ok(
                        LiquidReverseRunView {
                            phase: LiquidReversePhase::AwaitFundingPropagated,
                            funding_id: found.0,
                            funding_output: found.1,
                            funding_status: id,
                            ..run
                        },
                    )
                }
            },
        },
        (LiquidReversePhase::AwaitFundingPropagated, ReplyView::Done) => Ok(
            LiquidReverseRunView { phase: LiquidReversePhase::MineFunding, ..run },
        ),
        (LiquidReversePhase::MineFunding, ReplyView::Done) => Ok(
            LiquidReverseRunView { phase: LiquidReversePhase::AwaitObserved, ..run },
        ),
        (LiquidReversePhase::AwaitObserved, ReplyView::Record { .. }) => Ok(
            LiquidReverseRunView { phase: LiquidReversePhase::AwaitFinal, ..run },
        ),
        (LiquidReversePhase::AwaitFinal, ReplyView::Record { .. }) => Ok(
            LiquidReverseRunView { phase: LiquidReversePhase::AuthorizeFunding, ..run },
        ),
        (LiquidReversePhase::AuthorizeFunding, ReplyView::Done) => Ok(
            LiquidReverseRunView { phase: LiquidReversePhase::RecordFunding, ..run },
        ),
        (LiquidReversePhase::RecordFunding, ReplyView::Done) => Ok(
            LiquidReverseRunView { phase: LiquidReversePhase::KeepFunding, ..run },
        ),
        (LiquidReversePhase::KeepFunding, ReplyView::Done) => Ok(
            LiquidReverseRunView { phase: LiquidReversePhase::LoadRestartProof, ..run },
        ),
        (LiquidReversePhase::LoadRestartProof, ReplyView::Document(Some(document))) => Ok(
            LiquidReverseRunView {
                phase: LiquidReversePhase::AwaitReplay,
                restart_proof: document,
                ..run
            },
        ),
        (LiquidReversePhase::LoadRestartProof, ReplyView::Document(None)) => Err(
            "Liquid reverse provider restart has no controller proof"@,
        ),
        (LiquidReversePhase::AwaitReplay, ReplyView::Record { id, pubkey, tags, content, .. }) => {
            if id != run.funding_status {
                Err("Liquid reverse restart replayed another funding effect"@)
            } else {
                match outpoint_reading(content) {
                    Err(message) => Err(message),
                    Ok(found) => {
                        if found != (run.funding_id, run.funding_output) {
                            Err("Liquid reverse restart replayed another funding effect"@)
                        } else {
                            Ok(
                                LiquidReverseRunView {
                                    phase: LiquidReversePhase::SayClaimPending,
                                    ..run
                                },
                            )
                        }
                    },
                }
            }
        },
        (LiquidReversePhase::SayClaimPending, ReplyView::Record { .. }) => Ok(
            LiquidReverseRunView { phase: LiquidReversePhase::ExecuteClaim, ..run },
        ),
        (LiquidReversePhase::ExecuteClaim, ReplyView::Texts(texts)) => {
            if texts.len() != 2 {
                Err(wrong_reply())
            } else {
                Ok(
                    LiquidReverseRunView {
                        phase: LiquidReversePhase::KeepClaim,
                        claim_id: texts[0],
                        signed_claim_hex: texts[1],
                        ..run
                    },
                )
            }
        },
        (LiquidReversePhase::KeepClaim, ReplyView::Done) => Ok(
            LiquidReverseRunView { phase: LiquidReversePhase::RemoveSecret, ..run },
        ),
        (LiquidReversePhase::RemoveSecret, ReplyView::Done) => Ok(
            LiquidReverseRunView { phase: LiquidReversePhase::SayClaimed, ..run },
        ),
        (LiquidReversePhase::SayClaimed, ReplyView::Record { .. }) => Ok(
            LiquidReverseRunView { phase: LiquidReversePhase::AwaitClaimPropagated, ..run },
        ),
        (LiquidReversePhase::AwaitClaimPropagated, ReplyView::Done) => Ok(
            LiquidReverseRunView { phase: LiquidReversePhase::MineClaim, ..run },
        ),
        (LiquidReversePhase::MineClaim, ReplyView::Done) => Ok(
            LiquidReverseRunView { phase: LiquidReversePhase::AwaitSettlement, ..run },
        ),
        (LiquidReversePhase::AwaitSettlement, ReplyView::Record { .. }) => Ok(
            LiquidReverseRunView { phase: LiquidReversePhase::AwaitPaid, ..run },
        ),
        (LiquidReversePhase::AwaitPaid, ReplyView::Record { .. }) => Ok(
            LiquidReverseRunView { phase: LiquidReversePhase::AwaitCompleted, ..run },
        ),
        (LiquidReversePhase::AwaitCompleted, ReplyView::Record { .. }) => Ok(
            LiquidReverseRunView { phase: LiquidReversePhase::JoinPayment, ..run },
        ),
        (LiquidReversePhase::JoinPayment, ReplyView::Texts(texts)) => {
            if texts.len() != 2 {
                Err(wrong_reply())
            } else if texts[0] != "complete"@ || texts[1] != run.payment_hash {
                Err("Liquid reverse payment completed with another result"@)
            } else {
                Ok(LiquidReverseRunView { phase: LiquidReversePhase::AwaitPaymentEnd, ..run })
            }
        },
        (LiquidReversePhase::JoinPayment, ReplyView::Refused { code, message }) => Err(
            "Liquid reverse payment did not settle: "@ + message,
        ),
        (LiquidReversePhase::AwaitPaymentEnd, ReplyView::Texts(texts)) => {
            if texts.len() != 1 {
                Err(wrong_reply())
            } else if texts[0] != "complete"@ {
                Err("Liquid reverse requester CLN did not report terminal settlement"@)
            } else {
                Ok(LiquidReverseRunView { phase: LiquidReversePhase::AwaitClose, ..run })
            }
        },
        (LiquidReversePhase::AwaitClose, ReplyView::Record { id, pubkey, tags, content, .. }) => Ok(
            LiquidReverseRunView { phase: LiquidReversePhase::ReadFunding, close_id: id, ..run },
        ),
        (LiquidReversePhase::ReadFunding, ReplyView::Texts(texts)) => {
            if texts.len() != 1 {
                Err(wrong_reply())
            } else {
                Ok(
                    LiquidReverseRunView {
                        phase: LiquidReversePhase::ReadClaim,
                        funding_hex: texts[0],
                        ..run
                    },
                )
            }
        },
        (LiquidReversePhase::ReadClaim, ReplyView::Texts(texts)) => {
            if texts.len() != 1 {
                Err(wrong_reply())
            } else {
                Ok(
                    LiquidReverseRunView {
                        phase: LiquidReversePhase::Finished,
                        claim_hex: texts[0],
                        ..run
                    },
                )
            }
        },
        _ => Err(wrong_reply()),
    }
}

impl LiquidReverseRun {
    /// A Liquid reverse swap before its first action.
    pub fn new(confirmations: u64, network_id: &str, pegged_asset: &str) -> (run: LiquidReverseRun)
        ensures
            run@.phase == LiquidReversePhase::CheckNetwork,
            run@.confirmations == confirmations,
            run@.network_id == network_id@,
            run@.pegged_asset == pegged_asset@,
            run@.offering_id == Seq::<char>::empty(),
            run@.provider_pubkey == Seq::<char>::empty(),
            run@.payment_hash == Seq::<char>::empty(),
            run@.invoice == Seq::<char>::empty(),
            run@.expected_id == Seq::<char>::empty(),
            run@.expected_output == 0,
            run@.funding_status == Seq::<char>::empty(),
            run@.funding_id == Seq::<char>::empty(),
            run@.funding_output == 0,
            run@.restart_proof == JsonView::Null,
            run@.claim_id == Seq::<char>::empty(),
            run@.signed_claim_hex == Seq::<char>::empty(),
            run@.close_id == Seq::<char>::empty(),
            run@.funding_hex == Seq::<char>::empty(),
            run@.claim_hex == Seq::<char>::empty(),
    {
        LiquidReverseRun {
            phase: LiquidReversePhase::CheckNetwork,
            confirmations,
            network_id: network_id.to_owned(),
            pegged_asset: pegged_asset.to_owned(),
            offering_id: String::new(),
            provider_pubkey: String::new(),
            payment_hash: String::new(),
            invoice: String::new(),
            expected_id: String::new(),
            expected_output: 0,
            funding_status: String::new(),
            funding_id: String::new(),
            funding_output: 0,
            restart_proof: Json::null(),
            claim_id: String::new(),
            signed_claim_hex: String::new(),
            close_id: String::new(),
            funding_hex: String::new(),
            claim_hex: String::new(),
        }
    }

    /// What the journey asks for next.
    pub fn action(&self) -> (action: Action)
        ensures
            action@ == liquid_reverse_action(self@),
    {
        match self.phase {
            LiquidReversePhase::CheckNetwork => perform(Task::ReadLiquidNetwork),
            LiquidReversePhase::CheckHealth => Action::CheckHealth,
            LiquidReversePhase::DiscoverOffering => perform(Task::DiscoverOffering),
            LiquidReversePhase::StoreSecret => perform_with(Task::StoreSecret, "liquid_reverse"),
            LiquidReversePhase::PrepareOrder => perform_with(
                Task::PrepareOrder,
                self.payment_hash.as_str(),
            ),
            LiquidReversePhase::AwaitAccepted => Action::AwaitState("accepted"),
            LiquidReversePhase::AwaitInvoice => Action::AwaitState("hold_invoice_ready"),
            LiquidReversePhase::SayInvoiceVerified => Action::Say(
                "requester_invoice_verified",
                JsonObject::new(),
            ),
            LiquidReversePhase::StartPayment => perform_with_three(
                Task::StartPayment,
                "liquid_reverse",
                self.invoice.as_str(),
                self.payment_hash.as_str(),
            ),
            LiquidReversePhase::SayPaymentPending => Action::Say(
                "lightning_payment_pending",
                JsonObject::new(),
            ),
            LiquidReversePhase::AwaitHeld => Action::AwaitState("lightning_htlcs_held"),
            LiquidReversePhase::AwaitLockTerms => Action::AwaitState("provider_lock_terms_ready"),
            LiquidReversePhase::ObserveTemplate => perform_with(
                Task::ObserveTemplate,
                "liquid-reverse-template-preflight",
            ),
            LiquidReversePhase::SayLockVerified => Action::Say(
                "requester_lock_verified",
                JsonObject::new(),
            ),
            LiquidReversePhase::AwaitFunding => Action::AwaitState("provider_funding_broadcast"),
            LiquidReversePhase::AwaitFundingPropagated => Action::AwaitTransaction(
                "liquid".to_owned(),
                self.funding_id.clone(),
                "liquid-reverse-funding-propagation",
            ),
            LiquidReversePhase::MineFunding => Action::Mine(
                "liquid".to_owned(),
                self.confirmations,
                "liquid-reverse-funding",
            ),
            LiquidReversePhase::AwaitObserved => Action::AwaitState("funding_observed"),
            LiquidReversePhase::AwaitFinal => Action::AwaitState("funding_final"),
            LiquidReversePhase::AuthorizeFunding => perform_with(
                Task::AuthorizeFunding,
                self.invoice.as_str(),
            ),
            LiquidReversePhase::RecordFunding => perform_with_three(
                Task::RecordFundingEffect,
                self.payment_hash.as_str(),
                self.payment_hash.as_str(),
                "digest",
            ),
            LiquidReversePhase::KeepFunding => Action::Keep(
                "provider_funding_effect_recorded",
                effect_details(self.funding_id.as_str()),
            ),
            LiquidReversePhase::LoadRestartProof => Action::LoadControllerProof,
            LiquidReversePhase::AwaitReplay => Action::AwaitState("provider_funding_broadcast"),
            LiquidReversePhase::SayClaimPending => Action::Say(
                "requester_claim_pending",
                JsonObject::new(),
            ),
            LiquidReversePhase::ExecuteClaim => perform_with_three(
                Task::ExecuteLiquidClaim,
                "destination",
                "liquid_reverse",
                "liquid-reverse-claim",
            ),
            LiquidReversePhase::KeepClaim => Action::Keep(
                "liquid_claim_broadcast_recorded",
                effect_details(self.claim_id.as_str()),
            ),
            LiquidReversePhase::RemoveSecret => perform_with(Task::RemoveSecret, "liquid_reverse"),
            LiquidReversePhase::SayClaimed => Action::Say(
                "requester_claimed",
                JsonObject::new().with_text("transaction_id", self.claim_id.as_str()),
            ),
            LiquidReversePhase::AwaitClaimPropagated => Action::AwaitTransaction(
                "liquid".to_owned(),
                self.claim_id.clone(),
                "liquid-reverse-claim-propagation",
            ),
            LiquidReversePhase::MineClaim => Action::Mine(
                "liquid".to_owned(),
                self.confirmations,
                "liquid-reverse-claim",
            ),
            LiquidReversePhase::AwaitSettlement => Action::AwaitState(
                "lightning_settlement_pending",
            ),
            LiquidReversePhase::AwaitPaid => Action::AwaitState("lightning_paid"),
            LiquidReversePhase::AwaitCompleted => Action::AwaitState("completed"),
            LiquidReversePhase::JoinPayment => perform(Task::JoinPayment),
            LiquidReversePhase::AwaitPaymentEnd => perform_with_two(
                Task::AwaitPaymentEnd,
                self.invoice.as_str(),
                self.payment_hash.as_str(),
            ),
            LiquidReversePhase::AwaitClose => Action::AwaitClose(
                CloseCheck {
                    outcome: "completed",
                    bitcoin: None,
                    liquid: Some(self.claim_id.clone()),
                    lightning: Some(
                        LightningTerminalCheck::OutgoingPayment {
                            invoice: self.invoice.clone(),
                            payment_hash: self.payment_hash.clone(),
                            expected_status: "complete".to_owned(),
                        },
                    ),
                },
            ),
            LiquidReversePhase::ReadFunding => Action::ReadTransaction(
                "liquid".to_owned(),
                self.funding_id.clone(),
                "liquid-reverse-funding-proof",
            ),
            LiquidReversePhase::ReadClaim => Action::ReadTransaction(
                "liquid".to_owned(),
                self.claim_id.clone(),
                "liquid-reverse-claim-proof",
            ),
            LiquidReversePhase::Finished => Action::Finish,
        }
    }

    /// Takes a reply: the journey goes on to its next phase, or ends with a message.
    #[verifier::rlimit(60)]
    pub fn advance(&mut self, reply: Reply) -> (moved: Result<(), String>)
        ensures
            match moved {
                Ok(_) => liquid_reverse_step(
                    old(self)@,
                    reply@,
                ) == Ok::<LiquidReverseRunView, Seq<char>>(final(self)@),
                Err(message) => {
                    &&& liquid_reverse_step(
                        old(self)@,
                        reply@,
                    ) == Err::<LiquidReverseRunView, Seq<char>>(message@)
                    &&& final(self)@ == old(self)@
                },
            },
    {
        match (self.phase, reply) {
            (LiquidReversePhase::CheckNetwork, Reply::Texts(texts)) => {
                if texts.len() != 2 {
                    return Err(wrong_reply_text());
                }
                if !same_text(texts[0].as_str(), self.network_id.as_str())
                    || !same_text(texts[1].as_str(), self.pegged_asset.as_str())
                {
                    return Err(
                        "requester elementsd differs from the configured Liquid network".to_owned(),
                    );
                }
                self.phase = LiquidReversePhase::CheckHealth;
                Ok(())
            },
            (LiquidReversePhase::CheckHealth, Reply::Done) => {
                self.phase = LiquidReversePhase::DiscoverOffering;
                Ok(())
            },
            (LiquidReversePhase::DiscoverOffering, Reply::Record(event)) => {
                self.offering_id = event.id;
                self.provider_pubkey = event.pubkey;
                self.phase = LiquidReversePhase::StoreSecret;
                Ok(())
            },
            (LiquidReversePhase::StoreSecret, Reply::Texts(texts)) => {
                if texts.len() != 1 {
                    return Err(wrong_reply_text());
                }
                self.payment_hash = texts[0].clone();
                self.phase = LiquidReversePhase::PrepareOrder;
                Ok(())
            },
            (LiquidReversePhase::PrepareOrder, Reply::Done) => {
                self.phase = LiquidReversePhase::AwaitAccepted;
                Ok(())
            },
            (LiquidReversePhase::AwaitAccepted, Reply::Record(_)) => {
                self.phase = LiquidReversePhase::AwaitInvoice;
                Ok(())
            },
            (LiquidReversePhase::AwaitInvoice, Reply::Record(event)) => {
                let profile: JsonObject = record_profile(&event)?;
                let invoice: String = match profile.text_at("invoice") {
                    Some(invoice) => invoice.to_owned(),
                    None => {
                        return Err("Liquid reverse hold-invoice Status has no invoice".to_owned());
                    },
                };
                self.invoice = invoice;
                self.phase = LiquidReversePhase::SayInvoiceVerified;
                Ok(())
            },
            (LiquidReversePhase::SayInvoiceVerified, Reply::Record(_)) => {
                self.phase = LiquidReversePhase::StartPayment;
                Ok(())
            },
            (LiquidReversePhase::StartPayment, Reply::Done) => {
                self.phase = LiquidReversePhase::SayPaymentPending;
                Ok(())
            },
            (LiquidReversePhase::SayPaymentPending, Reply::Record(_)) => {
                self.phase = LiquidReversePhase::AwaitHeld;
                Ok(())
            },
            (LiquidReversePhase::AwaitHeld, Reply::Record(_)) => {
                self.phase = LiquidReversePhase::AwaitLockTerms;
                Ok(())
            },
            (LiquidReversePhase::AwaitLockTerms, Reply::Record(_)) => {
                self.phase = LiquidReversePhase::ObserveTemplate;
                Ok(())
            },
            (LiquidReversePhase::ObserveTemplate, Reply::Funding { receipt: _, id, output_index, hex: _ }) => {
                self.expected_id = id;
                self.expected_output = output_index;
                self.phase = LiquidReversePhase::SayLockVerified;
                Ok(())
            },
            (LiquidReversePhase::SayLockVerified, Reply::Record(_)) => {
                self.phase = LiquidReversePhase::AwaitFunding;
                Ok(())
            },
            (LiquidReversePhase::AwaitFunding, Reply::Record(event)) => {
                let found: (String, u32) = status_outpoint(&event)?;
                if !same_text(found.0.as_str(), self.expected_id.as_str())
                    || found.1 != self.expected_output
                {
                    return Err(
                        "provider broadcast another Liquid reverse funding transaction".to_owned(),
                    );
                }
                self.funding_id = found.0;
                self.funding_output = found.1;
                self.funding_status = event.id;
                self.phase = LiquidReversePhase::AwaitFundingPropagated;
                Ok(())
            },
            (LiquidReversePhase::AwaitFundingPropagated, Reply::Done) => {
                self.phase = LiquidReversePhase::MineFunding;
                Ok(())
            },
            (LiquidReversePhase::MineFunding, Reply::Done) => {
                self.phase = LiquidReversePhase::AwaitObserved;
                Ok(())
            },
            (LiquidReversePhase::AwaitObserved, Reply::Record(_)) => {
                self.phase = LiquidReversePhase::AwaitFinal;
                Ok(())
            },
            (LiquidReversePhase::AwaitFinal, Reply::Record(_)) => {
                self.phase = LiquidReversePhase::AuthorizeFunding;
                Ok(())
            },
            (LiquidReversePhase::AuthorizeFunding, Reply::Done) => {
                self.phase = LiquidReversePhase::RecordFunding;
                Ok(())
            },
            (LiquidReversePhase::RecordFunding, Reply::Done) => {
                self.phase = LiquidReversePhase::KeepFunding;
                Ok(())
            },
            (LiquidReversePhase::KeepFunding, Reply::Done) => {
                self.phase = LiquidReversePhase::LoadRestartProof;
                Ok(())
            },
            (LiquidReversePhase::LoadRestartProof, Reply::Document(Some(document))) => {
                self.restart_proof = document;
                self.phase = LiquidReversePhase::AwaitReplay;
                Ok(())
            },
            (LiquidReversePhase::LoadRestartProof, Reply::Document(None)) => {
                Err("Liquid reverse provider restart has no controller proof".to_owned())
            },
            (LiquidReversePhase::AwaitReplay, Reply::Record(event)) => {
                if !same_text(event.id.as_str(), self.funding_status.as_str()) {
                    return Err("Liquid reverse restart replayed another funding effect".to_owned());
                }
                let found: (String, u32) = status_outpoint(&event)?;
                if !same_text(found.0.as_str(), self.funding_id.as_str())
                    || found.1 != self.funding_output
                {
                    return Err("Liquid reverse restart replayed another funding effect".to_owned());
                }
                self.phase = LiquidReversePhase::SayClaimPending;
                Ok(())
            },
            (LiquidReversePhase::SayClaimPending, Reply::Record(_)) => {
                self.phase = LiquidReversePhase::ExecuteClaim;
                Ok(())
            },
            (LiquidReversePhase::ExecuteClaim, Reply::Texts(texts)) => {
                if texts.len() != 2 {
                    return Err(wrong_reply_text());
                }
                self.claim_id = texts[0].clone();
                self.signed_claim_hex = texts[1].clone();
                self.phase = LiquidReversePhase::KeepClaim;
                Ok(())
            },
            (LiquidReversePhase::KeepClaim, Reply::Done) => {
                self.phase = LiquidReversePhase::RemoveSecret;
                Ok(())
            },
            (LiquidReversePhase::RemoveSecret, Reply::Done) => {
                self.phase = LiquidReversePhase::SayClaimed;
                Ok(())
            },
            (LiquidReversePhase::SayClaimed, Reply::Record(_)) => {
                self.phase = LiquidReversePhase::AwaitClaimPropagated;
                Ok(())
            },
            (LiquidReversePhase::AwaitClaimPropagated, Reply::Done) => {
                self.phase = LiquidReversePhase::MineClaim;
                Ok(())
            },
            (LiquidReversePhase::MineClaim, Reply::Done) => {
                self.phase = LiquidReversePhase::AwaitSettlement;
                Ok(())
            },
            (LiquidReversePhase::AwaitSettlement, Reply::Record(_)) => {
                self.phase = LiquidReversePhase::AwaitPaid;
                Ok(())
            },
            (LiquidReversePhase::AwaitPaid, Reply::Record(_)) => {
                self.phase = LiquidReversePhase::AwaitCompleted;
                Ok(())
            },
            (LiquidReversePhase::AwaitCompleted, Reply::Record(_)) => {
                self.phase = LiquidReversePhase::JoinPayment;
                Ok(())
            },
            (LiquidReversePhase::JoinPayment, Reply::Texts(texts)) => {
                if texts.len() != 2 {
                    return Err(wrong_reply_text());
                }
                if !same_text(texts[0].as_str(), "complete")
                    || !same_text(texts[1].as_str(), self.payment_hash.as_str())
                {
                    return Err("Liquid reverse payment completed with another result".to_owned());
                }
                self.phase = LiquidReversePhase::AwaitPaymentEnd;
                Ok(())
            },
            (LiquidReversePhase::JoinPayment, Reply::Refused { code: _, message }) => {
                Err(join("Liquid reverse payment did not settle: ", message.as_str()))
            },
            (LiquidReversePhase::AwaitPaymentEnd, Reply::Texts(texts)) => {
                if texts.len() != 1 {
                    return Err(wrong_reply_text());
                }
                if !same_text(texts[0].as_str(), "complete") {
                    return Err(
                        "Liquid reverse requester CLN did not report terminal settlement".to_owned(),
                    );
                }
                self.phase = LiquidReversePhase::AwaitClose;
                Ok(())
            },
            (LiquidReversePhase::AwaitClose, Reply::Record(event)) => {
                self.close_id = event.id;
                self.phase = LiquidReversePhase::ReadFunding;
                Ok(())
            },
            (LiquidReversePhase::ReadFunding, Reply::Texts(texts)) => {
                if texts.len() != 1 {
                    return Err(wrong_reply_text());
                }
                self.funding_hex = texts[0].clone();
                self.phase = LiquidReversePhase::ReadClaim;
                Ok(())
            },
            (LiquidReversePhase::ReadClaim, Reply::Texts(texts)) => {
                if texts.len() != 1 {
                    return Err(wrong_reply_text());
                }
                self.claim_hex = texts[0].clone();
                self.phase = LiquidReversePhase::Finished;
                Ok(())
            },
            _ => Err(wrong_reply_text()),
        }
    }
}

/// Whether each entry of a trace leads to the one after it, from the first phase on.
pub open spec fn is_liquid_reverse_trace(trace: Seq<(LiquidReverseRunView, ReplyView)>) -> bool {
    &&& trace.len() > 0
    &&& trace[0].0.phase == LiquidReversePhase::CheckNetwork
    &&& forall|i: int|
        0 <= i < trace.len() - 1 ==> liquid_reverse_step(
            (#[trigger] trace[i]).0,
            trace[i].1,
        ) == Ok::<
            LiquidReverseRunView,
            Seq<char>,
        >(trace[i + 1].0)
}

/// Each reply takes a Liquid reverse swap forward, never back and never in place.
pub proof fn law_liquid_reverse_moves_forward(run: LiquidReverseRunView, reply: ReplyView)
    requires
        liquid_reverse_step(run, reply) is Ok,
    ensures
        run.phase.rank() < liquid_reverse_step(run, reply)->Ok_0.phase.rank(),
{
}

/// Which replies take a Liquid reverse swap on, and to which phase: in each phase exactly the
/// replies that pass every check of that phase, and no others.
pub proof fn law_liquid_reverse_goes_on_only_when_answered(
    run: LiquidReverseRunView,
    reply: ReplyView,
)
    ensures
        ({
            let next = liquid_reverse_step(run, reply);
            match run.phase {
                LiquidReversePhase::CheckNetwork => {
                    &&& next is Ok <==> {
                        &&& reply is Texts
                        &&& reply->Texts_0.len() == 2
                        &&& reply->Texts_0[0] == run.network_id
                        &&& reply->Texts_0[1] == run.pegged_asset
                    }
                    &&& next is Ok ==> next->Ok_0.phase == LiquidReversePhase::CheckHealth
                },
                LiquidReversePhase::CheckHealth => {
                    &&& next is Ok <==> reply is Done
                    &&& next is Ok ==> next->Ok_0.phase == LiquidReversePhase::DiscoverOffering
                },
                LiquidReversePhase::DiscoverOffering => {
                    &&& next is Ok <==> reply is Record
                    &&& next is Ok ==> next->Ok_0.phase == LiquidReversePhase::StoreSecret
                },
                LiquidReversePhase::StoreSecret => {
                    &&& next is Ok <==> {
                        &&& reply is Texts
                        &&& reply->Texts_0.len() == 1
                    }
                    &&& next is Ok ==> next->Ok_0.phase == LiquidReversePhase::PrepareOrder
                },
                LiquidReversePhase::PrepareOrder => {
                    &&& next is Ok <==> reply is Done
                    &&& next is Ok ==> next->Ok_0.phase == LiquidReversePhase::AwaitAccepted
                },
                LiquidReversePhase::AwaitAccepted => {
                    &&& next is Ok <==> reply is Record
                    &&& next is Ok ==> next->Ok_0.phase == LiquidReversePhase::AwaitInvoice
                },
                LiquidReversePhase::AwaitInvoice => {
                    &&& next is Ok <==> {
                        &&& reply is Record
                        &&& profile_reading(reply->Record_content) is Ok
                        &&& said(profile_reading(reply->Record_content)->Ok_0, "invoice"@) is Some
                    }
                    &&& next is Ok ==> next->Ok_0.phase == LiquidReversePhase::SayInvoiceVerified
                },
                LiquidReversePhase::SayInvoiceVerified => {
                    &&& next is Ok <==> reply is Record
                    &&& next is Ok ==> next->Ok_0.phase == LiquidReversePhase::StartPayment
                },
                LiquidReversePhase::StartPayment => {
                    &&& next is Ok <==> reply is Done
                    &&& next is Ok ==> next->Ok_0.phase == LiquidReversePhase::SayPaymentPending
                },
                LiquidReversePhase::SayPaymentPending => {
                    &&& next is Ok <==> reply is Record
                    &&& next is Ok ==> next->Ok_0.phase == LiquidReversePhase::AwaitHeld
                },
                LiquidReversePhase::AwaitHeld => {
                    &&& next is Ok <==> reply is Record
                    &&& next is Ok ==> next->Ok_0.phase == LiquidReversePhase::AwaitLockTerms
                },
                LiquidReversePhase::AwaitLockTerms => {
                    &&& next is Ok <==> reply is Record
                    &&& next is Ok ==> next->Ok_0.phase == LiquidReversePhase::ObserveTemplate
                },
                LiquidReversePhase::ObserveTemplate => {
                    &&& next is Ok <==> reply is Funding
                    &&& next is Ok ==> next->Ok_0.phase == LiquidReversePhase::SayLockVerified
                },
                LiquidReversePhase::SayLockVerified => {
                    &&& next is Ok <==> reply is Record
                    &&& next is Ok ==> next->Ok_0.phase == LiquidReversePhase::AwaitFunding
                },
                LiquidReversePhase::AwaitFunding => {
                    &&& next is Ok <==> {
                        &&& reply is Record
                        &&& outpoint_reading(reply->Record_content) is Ok
                        &&& outpoint_reading(reply->Record_content)->Ok_0 == (
                            run.expected_id, run.expected_output
                        )
                    }
                    &&& next is Ok ==> next->Ok_0.phase == LiquidReversePhase::AwaitFundingPropagated
                },
                LiquidReversePhase::AwaitFundingPropagated => {
                    &&& next is Ok <==> reply is Done
                    &&& next is Ok ==> next->Ok_0.phase == LiquidReversePhase::MineFunding
                },
                LiquidReversePhase::MineFunding => {
                    &&& next is Ok <==> reply is Done
                    &&& next is Ok ==> next->Ok_0.phase == LiquidReversePhase::AwaitObserved
                },
                LiquidReversePhase::AwaitObserved => {
                    &&& next is Ok <==> reply is Record
                    &&& next is Ok ==> next->Ok_0.phase == LiquidReversePhase::AwaitFinal
                },
                LiquidReversePhase::AwaitFinal => {
                    &&& next is Ok <==> reply is Record
                    &&& next is Ok ==> next->Ok_0.phase == LiquidReversePhase::AuthorizeFunding
                },
                LiquidReversePhase::AuthorizeFunding => {
                    &&& next is Ok <==> reply is Done
                    &&& next is Ok ==> next->Ok_0.phase == LiquidReversePhase::RecordFunding
                },
                LiquidReversePhase::RecordFunding => {
                    &&& next is Ok <==> reply is Done
                    &&& next is Ok ==> next->Ok_0.phase == LiquidReversePhase::KeepFunding
                },
                LiquidReversePhase::KeepFunding => {
                    &&& next is Ok <==> reply is Done
                    &&& next is Ok ==> next->Ok_0.phase == LiquidReversePhase::LoadRestartProof
                },
                LiquidReversePhase::LoadRestartProof => {
                    &&& next is Ok <==> {
                        &&& reply is Document
                        &&& reply->Document_0 is Some
                    }
                    &&& next is Ok ==> next->Ok_0.phase == LiquidReversePhase::AwaitReplay
                },
                LiquidReversePhase::AwaitReplay => {
                    &&& next is Ok <==> {
                        &&& reply is Record
                        &&& reply->Record_id == run.funding_status
                        &&& outpoint_reading(reply->Record_content) is Ok
                        &&& outpoint_reading(reply->Record_content)->Ok_0 == (
                            run.funding_id, run.funding_output
                        )
                    }
                    &&& next is Ok ==> next->Ok_0.phase == LiquidReversePhase::SayClaimPending
                },
                LiquidReversePhase::SayClaimPending => {
                    &&& next is Ok <==> reply is Record
                    &&& next is Ok ==> next->Ok_0.phase == LiquidReversePhase::ExecuteClaim
                },
                LiquidReversePhase::ExecuteClaim => {
                    &&& next is Ok <==> {
                        &&& reply is Texts
                        &&& reply->Texts_0.len() == 2
                    }
                    &&& next is Ok ==> next->Ok_0.phase == LiquidReversePhase::KeepClaim
                },
                LiquidReversePhase::KeepClaim => {
                    &&& next is Ok <==> reply is Done
                    &&& next is Ok ==> next->Ok_0.phase == LiquidReversePhase::RemoveSecret
                },
                LiquidReversePhase::RemoveSecret => {
                    &&& next is Ok <==> reply is Done
                    &&& next is Ok ==> next->Ok_0.phase == LiquidReversePhase::SayClaimed
                },
                LiquidReversePhase::SayClaimed => {
                    &&& next is Ok <==> reply is Record
                    &&& next is Ok ==> next->Ok_0.phase == LiquidReversePhase::AwaitClaimPropagated
                },
                LiquidReversePhase::AwaitClaimPropagated => {
                    &&& next is Ok <==> reply is Done
                    &&& next is Ok ==> next->Ok_0.phase == LiquidReversePhase::MineClaim
                },
                LiquidReversePhase::MineClaim => {
                    &&& next is Ok <==> reply is Done
                    &&& next is Ok ==> next->Ok_0.phase == LiquidReversePhase::AwaitSettlement
                },
                LiquidReversePhase::AwaitSettlement => {
                    &&& next is Ok <==> reply is Record
                    &&& next is Ok ==> next->Ok_0.phase == LiquidReversePhase::AwaitPaid
                },
                LiquidReversePhase::AwaitPaid => {
                    &&& next is Ok <==> reply is Record
                    &&& next is Ok ==> next->Ok_0.phase == LiquidReversePhase::AwaitCompleted
                },
                LiquidReversePhase::AwaitCompleted => {
                    &&& next is Ok <==> reply is Record
                    &&& next is Ok ==> next->Ok_0.phase == LiquidReversePhase::JoinPayment
                },
                LiquidReversePhase::JoinPayment => {
                    &&& next is Ok <==> {
                        &&& reply is Texts
                        &&& reply->Texts_0.len() == 2
                        &&& reply->Texts_0[0] == "complete"@
                        &&& reply->Texts_0[1] == run.payment_hash
                    }
                    &&& next is Ok ==> next->Ok_0.phase == LiquidReversePhase::AwaitPaymentEnd
                },
                LiquidReversePhase::AwaitPaymentEnd => {
                    &&& next is Ok <==> {
                        &&& reply is Texts
                        &&& reply->Texts_0.len() == 1
                        &&& reply->Texts_0[0] == "complete"@
                    }
                    &&& next is Ok ==> next->Ok_0.phase == LiquidReversePhase::AwaitClose
                },
                LiquidReversePhase::AwaitClose => {
                    &&& next is Ok <==> reply is Record
                    &&& next is Ok ==> next->Ok_0.phase == LiquidReversePhase::ReadFunding
                },
                LiquidReversePhase::ReadFunding => {
                    &&& next is Ok <==> {
                        &&& reply is Texts
                        &&& reply->Texts_0.len() == 1
                    }
                    &&& next is Ok ==> next->Ok_0.phase == LiquidReversePhase::ReadClaim
                },
                LiquidReversePhase::ReadClaim => {
                    &&& next is Ok <==> {
                        &&& reply is Texts
                        &&& reply->Texts_0.len() == 1
                    }
                    &&& next is Ok ==> next->Ok_0.phase == LiquidReversePhase::Finished
                },
                LiquidReversePhase::Finished => next is Err,
            }
        }),
{
}

/// The reply that a trace of a Liquid reverse swap holds for a phase.
pub open spec fn liquid_reverse_told(
    trace: Seq<(LiquidReverseRunView, ReplyView)>,
    phase: LiquidReversePhase,
) -> ReplyView {
    trace[choose|i: int| 0 <= i < trace.len() && (#[trigger] trace[i]).0.phase == phase].1
}

/// The values that a run of a Liquid reverse swap holds, by the replies that gave them: each stays
/// as the reply to one phase gave it, or as the run started with it.
pub open spec fn liquid_reverse_holds(
    trace: Seq<(LiquidReverseRunView, ReplyView)>,
    run: LiquidReverseRunView,
) -> bool {
    let start = trace[0].0;
    let offering_id = liquid_reverse_told(trace, LiquidReversePhase::DiscoverOffering)->Record_id;
    let provider_pubkey = liquid_reverse_told(trace, LiquidReversePhase::DiscoverOffering)->Record_pubkey;
    let payment_hash = liquid_reverse_told(trace, LiquidReversePhase::StoreSecret)->Texts_0[0];
    let invoice = said(
        profile_reading(
            liquid_reverse_told(trace, LiquidReversePhase::AwaitInvoice)->Record_content,
        )->Ok_0,
        "invoice"@,
    )->0;
    let expected_id = liquid_reverse_told(trace, LiquidReversePhase::ObserveTemplate)->Funding_id;
    let expected_output = liquid_reverse_told(trace, LiquidReversePhase::ObserveTemplate)->Funding_output_index;
    let funding_status = liquid_reverse_told(trace, LiquidReversePhase::AwaitFunding)->Record_id;
    let funding_id = outpoint_reading(
        liquid_reverse_told(trace, LiquidReversePhase::AwaitFunding)->Record_content,
    )->Ok_0.0;
    let funding_output = outpoint_reading(
        liquid_reverse_told(trace, LiquidReversePhase::AwaitFunding)->Record_content,
    )->Ok_0.1;
    let restart_proof = liquid_reverse_told(trace, LiquidReversePhase::LoadRestartProof)->Document_0->0;
    let claim_id = liquid_reverse_told(trace, LiquidReversePhase::ExecuteClaim)->Texts_0[0];
    let signed_claim_hex = liquid_reverse_told(trace, LiquidReversePhase::ExecuteClaim)->Texts_0[1];
    let close_id = liquid_reverse_told(trace, LiquidReversePhase::AwaitClose)->Record_id;
    let funding_hex = liquid_reverse_told(trace, LiquidReversePhase::ReadFunding)->Texts_0[0];
    let claim_hex = liquid_reverse_told(trace, LiquidReversePhase::ReadClaim)->Texts_0[0];
    &&& run.confirmations == start.confirmations
    &&& run.network_id == start.network_id
    &&& run.pegged_asset == start.pegged_asset
    &&& run.phase.rank() > LiquidReversePhase::DiscoverOffering.rank()
        ==> run.offering_id == offering_id
    &&& run.phase.rank() > LiquidReversePhase::DiscoverOffering.rank()
        ==> run.provider_pubkey == provider_pubkey
    &&& run.phase.rank() > LiquidReversePhase::StoreSecret.rank()
        ==> run.payment_hash == payment_hash
    &&& run.phase.rank() > LiquidReversePhase::AwaitInvoice.rank() ==> run.invoice == invoice
    &&& run.phase.rank() > LiquidReversePhase::ObserveTemplate.rank()
        ==> run.expected_id == expected_id
    &&& run.phase.rank() > LiquidReversePhase::ObserveTemplate.rank()
        ==> run.expected_output == expected_output
    &&& run.phase.rank() > LiquidReversePhase::AwaitFunding.rank()
        ==> run.funding_status == funding_status
    &&& run.phase.rank() > LiquidReversePhase::AwaitFunding.rank() ==> run.funding_id == funding_id
    &&& run.phase.rank() > LiquidReversePhase::AwaitFunding.rank()
        ==> run.funding_output == funding_output
    &&& run.phase.rank() > LiquidReversePhase::LoadRestartProof.rank()
        ==> run.restart_proof == restart_proof
    &&& run.phase.rank() > LiquidReversePhase::ExecuteClaim.rank() ==> run.claim_id == claim_id
    &&& run.phase.rank() > LiquidReversePhase::ExecuteClaim.rank()
        ==> run.signed_claim_hex == signed_claim_hex
    &&& run.phase.rank() > LiquidReversePhase::AwaitClose.rank() ==> run.close_id == close_id
    &&& run.phase.rank() > LiquidReversePhase::ReadFunding.rank() ==> run.funding_hex == funding_hex
    &&& run.phase.rank() > LiquidReversePhase::ReadClaim.rank() ==> run.claim_hex == claim_hex
}

/// No phase of a Liquid reverse swap comes twice in a trace.
proof fn lemma_liquid_reverse_told_once(trace: Seq<(LiquidReverseRunView, ReplyView)>, place: int)
    requires
        is_liquid_reverse_trace(trace),
        0 <= place < trace.len(),
    ensures
        liquid_reverse_told(trace, trace[place].0.phase) == trace[place].1,
{
    let phase = trace[place].0.phase;
    let other = choose|i: int| 0 <= i < trace.len() && (#[trigger] trace[i]).0.phase == phase;
    assert(trace[place].0.phase == phase);
    if other != place {
        let (early, late) = if other < place {
            (other, place)
        } else {
            (place, other)
        };
        assert forall|run: LiquidReverseRunView, reply: ReplyView|
            (#[trigger] liquid_reverse_step(run, reply)) is Ok implies run.phase.rank() < liquid_reverse_step(
            run,
            reply,
        )->Ok_0.phase.rank() by {
            law_liquid_reverse_moves_forward(run, reply);
        }
        lemma_ranks_rise(
            trace,
            |run: LiquidReverseRunView, reply: ReplyView| liquid_reverse_step(run, reply),
            |run: LiquidReverseRunView| run.phase.rank(),
            early,
            late,
        );
    }
}

/// A reply keeps what a Liquid reverse swap holds, and adds what it tells.
proof fn lemma_liquid_reverse_holds_on(
    trace: Seq<(LiquidReverseRunView, ReplyView)>,
    run: LiquidReverseRunView,
    reply: ReplyView,
)
    requires
        liquid_reverse_holds(trace, run),
        liquid_reverse_told(trace, run.phase) == reply,
        liquid_reverse_step(run, reply) is Ok,
    ensures
        liquid_reverse_holds(trace, liquid_reverse_step(run, reply)->Ok_0),
{
    let next = liquid_reverse_step(run, reply)->Ok_0;
    match run.phase {
        LiquidReversePhase::CheckNetwork => assert(liquid_reverse_holds(trace, next)),
        LiquidReversePhase::CheckHealth => assert(liquid_reverse_holds(trace, next)),
        LiquidReversePhase::DiscoverOffering => assert(liquid_reverse_holds(trace, next)),
        LiquidReversePhase::StoreSecret => assert(liquid_reverse_holds(trace, next)),
        LiquidReversePhase::PrepareOrder => assert(liquid_reverse_holds(trace, next)),
        LiquidReversePhase::AwaitAccepted => assert(liquid_reverse_holds(trace, next)),
        LiquidReversePhase::AwaitInvoice => assert(liquid_reverse_holds(trace, next)),
        LiquidReversePhase::SayInvoiceVerified => assert(liquid_reverse_holds(trace, next)),
        LiquidReversePhase::StartPayment => assert(liquid_reverse_holds(trace, next)),
        LiquidReversePhase::SayPaymentPending => assert(liquid_reverse_holds(trace, next)),
        LiquidReversePhase::AwaitHeld => assert(liquid_reverse_holds(trace, next)),
        LiquidReversePhase::AwaitLockTerms => assert(liquid_reverse_holds(trace, next)),
        LiquidReversePhase::ObserveTemplate => assert(liquid_reverse_holds(trace, next)),
        LiquidReversePhase::SayLockVerified => assert(liquid_reverse_holds(trace, next)),
        LiquidReversePhase::AwaitFunding => assert(liquid_reverse_holds(trace, next)),
        LiquidReversePhase::AwaitFundingPropagated => assert(liquid_reverse_holds(trace, next)),
        LiquidReversePhase::MineFunding => assert(liquid_reverse_holds(trace, next)),
        LiquidReversePhase::AwaitObserved => assert(liquid_reverse_holds(trace, next)),
        LiquidReversePhase::AwaitFinal => assert(liquid_reverse_holds(trace, next)),
        LiquidReversePhase::AuthorizeFunding => assert(liquid_reverse_holds(trace, next)),
        LiquidReversePhase::RecordFunding => assert(liquid_reverse_holds(trace, next)),
        LiquidReversePhase::KeepFunding => assert(liquid_reverse_holds(trace, next)),
        LiquidReversePhase::LoadRestartProof => assert(liquid_reverse_holds(trace, next)),
        LiquidReversePhase::AwaitReplay => assert(liquid_reverse_holds(trace, next)),
        LiquidReversePhase::SayClaimPending => assert(liquid_reverse_holds(trace, next)),
        LiquidReversePhase::ExecuteClaim => assert(liquid_reverse_holds(trace, next)),
        LiquidReversePhase::KeepClaim => assert(liquid_reverse_holds(trace, next)),
        LiquidReversePhase::RemoveSecret => assert(liquid_reverse_holds(trace, next)),
        LiquidReversePhase::SayClaimed => assert(liquid_reverse_holds(trace, next)),
        LiquidReversePhase::AwaitClaimPropagated => assert(liquid_reverse_holds(trace, next)),
        LiquidReversePhase::MineClaim => assert(liquid_reverse_holds(trace, next)),
        LiquidReversePhase::AwaitSettlement => assert(liquid_reverse_holds(trace, next)),
        LiquidReversePhase::AwaitPaid => assert(liquid_reverse_holds(trace, next)),
        LiquidReversePhase::AwaitCompleted => assert(liquid_reverse_holds(trace, next)),
        LiquidReversePhase::JoinPayment => assert(liquid_reverse_holds(trace, next)),
        LiquidReversePhase::AwaitPaymentEnd => assert(liquid_reverse_holds(trace, next)),
        LiquidReversePhase::AwaitClose => assert(liquid_reverse_holds(trace, next)),
        LiquidReversePhase::ReadFunding => assert(liquid_reverse_holds(trace, next)),
        LiquidReversePhase::ReadClaim => assert(liquid_reverse_holds(trace, next)),
        LiquidReversePhase::Finished => assert(liquid_reverse_holds(trace, next)),
    }
}

/// What a Liquid reverse swap has been told, it keeps: at every place of a trace each value that
/// the run holds is the one that the reply to the phase that asks for it gave, or the one that the
/// run started with.
pub proof fn law_liquid_reverse_keeps_what_it_was_told(
    trace: Seq<(LiquidReverseRunView, ReplyView)>,
    last: int,
)
    requires
        is_liquid_reverse_trace(trace),
        0 <= last < trace.len(),
    ensures
        liquid_reverse_holds(trace, trace[last].0),
    decreases last,
{
    if last > 0 {
        let before = last - 1;
        law_liquid_reverse_keeps_what_it_was_told(trace, before);
        lemma_liquid_reverse_told_once(trace, before);
        assert(liquid_reverse_step(trace[before].0, trace[before].1) == Ok::<LiquidReverseRunView, Seq<char>>(
            trace[before + 1].0,
        ));
        lemma_liquid_reverse_holds_on(trace, trace[before].0, trace[before].1);
    }
}

/// What a Liquid reverse swap asks for in each phase, in terms of the replies before it: the values
/// in a request are those that the replies to the named phases gave, or those that the run started
/// with.
pub proof fn law_liquid_reverse_asks_with_what_it_was_told(
    trace: Seq<(LiquidReverseRunView, ReplyView)>,
    last: int,
)
    requires
        is_liquid_reverse_trace(trace),
        0 <= last < trace.len(),
    ensures
        ({
            let start = trace[0].0;
            let payment_hash = liquid_reverse_told(trace, LiquidReversePhase::StoreSecret)->Texts_0[0];
            let invoice = said(
                profile_reading(
                    liquid_reverse_told(trace, LiquidReversePhase::AwaitInvoice)->Record_content,
                )->Ok_0,
                "invoice"@,
            )->0;
            let funding_id = outpoint_reading(
                liquid_reverse_told(trace, LiquidReversePhase::AwaitFunding)->Record_content,
            )->Ok_0.0;
            let claim_id = liquid_reverse_told(trace, LiquidReversePhase::ExecuteClaim)->Texts_0[0];
            let action = liquid_reverse_action(trace[last].0);
            match trace[last].0.phase {
                LiquidReversePhase::CheckNetwork => action == ActionView::Perform(
                    Task::ReadLiquidNetwork,
                    seq![],
                ),
                LiquidReversePhase::CheckHealth => action == ActionView::CheckHealth,
                LiquidReversePhase::DiscoverOffering => action == ActionView::Perform(
                    Task::DiscoverOffering,
                    seq![],
                ),
                LiquidReversePhase::StoreSecret => action == ActionView::Perform(
                    Task::StoreSecret,
                    seq!["liquid_reverse"@],
                ),
                LiquidReversePhase::PrepareOrder => action == ActionView::Perform(
                    Task::PrepareOrder,
                    seq![payment_hash],
                ),
                LiquidReversePhase::AwaitAccepted => action == ActionView::AwaitState("accepted"@),
                LiquidReversePhase::AwaitInvoice => action == ActionView::AwaitState(
                    "hold_invoice_ready"@,
                ),
                LiquidReversePhase::SayInvoiceVerified => action == ActionView::Say(
                    "requester_invoice_verified"@,
                    no_members(),
                ),
                LiquidReversePhase::StartPayment => action == ActionView::Perform(
                    Task::StartPayment,
                    seq!["liquid_reverse"@, invoice, payment_hash],
                ),
                LiquidReversePhase::SayPaymentPending => action == ActionView::Say(
                    "lightning_payment_pending"@,
                    no_members(),
                ),
                LiquidReversePhase::AwaitHeld => action == ActionView::AwaitState(
                    "lightning_htlcs_held"@,
                ),
                LiquidReversePhase::AwaitLockTerms => action == ActionView::AwaitState(
                    "provider_lock_terms_ready"@,
                ),
                LiquidReversePhase::ObserveTemplate => action == ActionView::Perform(
                    Task::ObserveTemplate,
                    seq!["liquid-reverse-template-preflight"@],
                ),
                LiquidReversePhase::SayLockVerified => action == ActionView::Say(
                    "requester_lock_verified"@,
                    no_members(),
                ),
                LiquidReversePhase::AwaitFunding => action == ActionView::AwaitState(
                    "provider_funding_broadcast"@,
                ),
                LiquidReversePhase::AwaitFundingPropagated => action == ActionView::AwaitTransaction(
                    "liquid"@,
                    funding_id,
                    "liquid-reverse-funding-propagation"@,
                ),
                LiquidReversePhase::MineFunding => action == ActionView::Mine(
                    "liquid"@,
                    start.confirmations,
                    "liquid-reverse-funding"@,
                ),
                LiquidReversePhase::AwaitObserved => action == ActionView::AwaitState(
                    "funding_observed"@,
                ),
                LiquidReversePhase::AwaitFinal => action == ActionView::AwaitState(
                    "funding_final"@,
                ),
                LiquidReversePhase::AuthorizeFunding => action == ActionView::Perform(
                    Task::AuthorizeFunding,
                    seq![invoice],
                ),
                LiquidReversePhase::RecordFunding => action == ActionView::Perform(
                    Task::RecordFundingEffect,
                    seq![payment_hash, payment_hash, "digest"@],
                ),
                LiquidReversePhase::KeepFunding => action == ActionView::Keep(
                    "provider_funding_effect_recorded"@,
                    effect_doc(funding_id),
                ),
                LiquidReversePhase::LoadRestartProof => action == ActionView::LoadControllerProof,
                LiquidReversePhase::AwaitReplay => action == ActionView::AwaitState(
                    "provider_funding_broadcast"@,
                ),
                LiquidReversePhase::SayClaimPending => action == ActionView::Say(
                    "requester_claim_pending"@,
                    no_members(),
                ),
                LiquidReversePhase::ExecuteClaim => action == ActionView::Perform(
                    Task::ExecuteLiquidClaim,
                    seq!["destination"@, "liquid_reverse"@, "liquid-reverse-claim"@],
                ),
                LiquidReversePhase::KeepClaim => action == ActionView::Keep(
                    "liquid_claim_broadcast_recorded"@,
                    effect_doc(claim_id),
                ),
                LiquidReversePhase::RemoveSecret => action == ActionView::Perform(
                    Task::RemoveSecret,
                    seq!["liquid_reverse"@],
                ),
                LiquidReversePhase::SayClaimed => action == ActionView::Say(
                    "requester_claimed"@,
                    no_members().insert("transaction_id"@, text_doc(claim_id)),
                ),
                LiquidReversePhase::AwaitClaimPropagated => action == ActionView::AwaitTransaction(
                    "liquid"@,
                    claim_id,
                    "liquid-reverse-claim-propagation"@,
                ),
                LiquidReversePhase::MineClaim => action == ActionView::Mine(
                    "liquid"@,
                    start.confirmations,
                    "liquid-reverse-claim"@,
                ),
                LiquidReversePhase::AwaitSettlement => action == ActionView::AwaitState(
                    "lightning_settlement_pending"@,
                ),
                LiquidReversePhase::AwaitPaid => action == ActionView::AwaitState(
                    "lightning_paid"@,
                ),
                LiquidReversePhase::AwaitCompleted => action == ActionView::AwaitState(
                    "completed"@,
                ),
                LiquidReversePhase::JoinPayment => action == ActionView::Perform(
                    Task::JoinPayment,
                    seq![],
                ),
                LiquidReversePhase::AwaitPaymentEnd => action == ActionView::Perform(
                    Task::AwaitPaymentEnd,
                    seq![invoice, payment_hash],
                ),
                LiquidReversePhase::AwaitClose => action == ActionView::AwaitClose(
                    CloseCheckView {
                        outcome: "completed"@,
                        bitcoin: None,
                        liquid: Some(claim_id),
                        lightning: Some(
                            LightningView::Outgoing(invoice, payment_hash, "complete"@),
                        ),
                    },
                ),
                LiquidReversePhase::ReadFunding => action == ActionView::ReadTransaction(
                    "liquid"@,
                    funding_id,
                    "liquid-reverse-funding-proof"@,
                ),
                LiquidReversePhase::ReadClaim => action == ActionView::ReadTransaction(
                    "liquid"@,
                    claim_id,
                    "liquid-reverse-claim-proof"@,
                ),
                LiquidReversePhase::Finished => action == ActionView::Finish,
            }
        }),
{
    law_liquid_reverse_keeps_what_it_was_told(trace, last);
}

/// The lock is claimed only after the client has authorized it.
pub proof fn law_liquid_reverse_claims_only_when_authorized(
    trace: Seq<(LiquidReverseRunView, ReplyView)>,
    last: int,
)
    requires
        is_liquid_reverse_trace(trace),
        0 <= last < trace.len(),
        trace[last].0.phase == LiquidReversePhase::ExecuteClaim,
    ensures
        exists|i: int|
            0 <= i < last && (#[trigger] trace[i]).0.phase == LiquidReversePhase::AuthorizeFunding
                && trace[i].1 == ReplyView::Done,
{
    let i = lemma_milestone(
        trace,
        |run: LiquidReverseRunView, reply: ReplyView| liquid_reverse_step(run, reply),
        |run: LiquidReverseRunView| run.phase.rank(),
        19,
        last,
    );
    assert(trace[i].0.phase == LiquidReversePhase::AuthorizeFunding);
    assert(liquid_reverse_step(trace[i].0, trace[i].1) == Ok::<LiquidReverseRunView,
        Seq<char>>(trace[i + 1].0));
}

/// Whether every reply of a trace answers the action that it is told for.
pub open spec fn is_answered_liquid_reverse(
    trace: Seq<(LiquidReverseRunView, ReplyView)>,
    kinds: RecordKinds,
    provider: Seq<char>,
) -> bool {
    forall|i: int|
        0 <= i < trace.len() - 1 ==> answers(
            liquid_reverse_action((#[trigger] trace[i]).0),
            trace[i].1,
            kinds,
            provider,
        )
}

/// The lock is claimed only after the provider said that its funding is final.
pub proof fn law_liquid_reverse_claims_only_final_funding(
    trace: Seq<(LiquidReverseRunView, ReplyView)>,
    kinds: RecordKinds,
    provider: Seq<char>,
    last: int,
)
    requires
        is_liquid_reverse_trace(trace),
        is_answered_liquid_reverse(trace, kinds, provider),
        0 <= last < trace.len(),
        trace[last].0.phase == LiquidReversePhase::ExecuteClaim,
    ensures
        exists|i: int|
            0 <= i < last && (#[trigger] trace[i]).0.phase == LiquidReversePhase::AwaitFinal &&
                says(
                trace[i].1,
                kinds,
                provider,
                "funding_final"@,
            ),
{
    let i = lemma_milestone(
        trace,
        |run: LiquidReverseRunView, reply: ReplyView| liquid_reverse_step(run, reply),
        |run: LiquidReverseRunView| run.phase.rank(),
        18,
        last,
    );
    assert(trace[i].0.phase == LiquidReversePhase::AwaitFinal);
    assert(answers(liquid_reverse_action(trace[i].0), trace[i].1, kinds, provider));
}

/// The lock is claimed only after the restarted provider has repeated its funding.
pub proof fn law_liquid_reverse_checks_the_replay(
    trace: Seq<(LiquidReverseRunView, ReplyView)>,
    kinds: RecordKinds,
    provider: Seq<char>,
    last: int,
)
    requires
        is_liquid_reverse_trace(trace),
        is_answered_liquid_reverse(trace, kinds, provider),
        0 <= last < trace.len(),
        trace[last].0.phase == LiquidReversePhase::ExecuteClaim,
    ensures
        exists|i: int|
            0 <= i < last && (#[trigger] trace[i]).0.phase == LiquidReversePhase::AwaitReplay &&
                says(
                trace[i].1,
                kinds,
                provider,
                "provider_funding_broadcast"@,
            ),
{
    let i = lemma_milestone(
        trace,
        |run: LiquidReverseRunView, reply: ReplyView| liquid_reverse_step(run, reply),
        |run: LiquidReverseRunView| run.phase.rank(),
        23,
        last,
    );
    assert(trace[i].0.phase == LiquidReversePhase::AwaitReplay);
    assert(answers(liquid_reverse_action(trace[i].0), trace[i].1, kinds, provider));
}

/// The secret is removed only after the lock has been claimed.
pub proof fn law_liquid_reverse_drops_the_secret_after_the_claim(
    trace: Seq<(LiquidReverseRunView, ReplyView)>,
    last: int,
)
    requires
        is_liquid_reverse_trace(trace),
        0 <= last < trace.len(),
        trace[last].0.phase == LiquidReversePhase::RemoveSecret,
    ensures
        exists|i: int|
            0 <= i < last && (#[trigger] trace[i]).0.phase == LiquidReversePhase::ExecuteClaim &&
                trace[i].1 is Texts,
{
    let i = lemma_milestone(
        trace,
        |run: LiquidReverseRunView, reply: ReplyView| liquid_reverse_step(run, reply),
        |run: LiquidReverseRunView| run.phase.rank(),
        25,
        last,
    );
    assert(trace[i].0.phase == LiquidReversePhase::ExecuteClaim);
    assert(liquid_reverse_step(trace[i].0, trace[i].1) == Ok::<LiquidReverseRunView,
        Seq<char>>(trace[i + 1].0));
}

/// The swap finishes only after the requester's own node shows the payment as complete.
pub proof fn law_liquid_reverse_ends_paid(trace: Seq<(LiquidReverseRunView, ReplyView)>, last: int)
    requires
        is_liquid_reverse_trace(trace),
        0 <= last < trace.len(),
        trace[last].0.phase == LiquidReversePhase::Finished,
    ensures
        exists|i: int|
            0 <= i < last && (#[trigger] trace[i]).0.phase == LiquidReversePhase::AwaitPaymentEnd &&
                trace[i].1 == ReplyView::Texts(seq!["complete"@]),
{
    let i = lemma_milestone(
        trace,
        |run: LiquidReverseRunView, reply: ReplyView| liquid_reverse_step(run, reply),
        |run: LiquidReverseRunView| run.phase.rank(),
        35,
        last,
    );
    assert(trace[i].0.phase == LiquidReversePhase::AwaitPaymentEnd);
    assert(liquid_reverse_step(trace[i].0, trace[i].1) == Ok::<LiquidReverseRunView,
        Seq<char>>(trace[i + 1].0));
    assert(trace[i].1->Texts_0 =~= seq!["complete"@]);
}

/// What the end of a Liquid reverse swap reads as: its proof, or what is missing from it.
pub open spec fn liquid_reverse_proof_reading(
    run: LiquidReverseRunView,
    provider_index: usize,
    records: Seq<Event>,
    kinds: RecordKinds,
) -> Result<JsonView, Seq<char>> {
    match chain_lifecycle_reading(
        records,
        kinds,
        run.offering_id,
        run.provider_pubkey,
        run.close_id,
    ) {
        Err(message) => Err(message),
        Ok(lifecycle) => Ok(
            route_proof_doc(
                "liquid-reverse"@,
                provider_index,
                lifecycle,
                leg_proof_doc(
                    "liquid"@,
                    run.funding_id,
                    run.funding_output,
                    run.funding_hex,
                    run.claim_id,
                    run.claim_hex,
                ),
                seq!["liquid_reverse_fund"@],
                seq!["provider_funding_broadcast"@],
                "requester"@,
                "claim"@,
                run.payment_hash,
                run.restart_proof,
            ),
        ),
    }
}

/// What the end of a Liquid reverse swap reads as: it can be had exactly where every part that it
/// rests on can, and each part of it is the one that its name says.
pub proof fn law_liquid_reverse_proof_is_read_from_its_parts(
    run: LiquidReverseRunView,
    provider_index: usize,
    records: Seq<Event>,
    kinds: RecordKinds,
)
    ensures
        ({
            let read = liquid_reverse_proof_reading(run, provider_index, records, kinds);
            let given = read->Ok_0;
            &&& read is Ok <==> {
                &&& chain_lifecycle_reading(
                    records,
                    kinds,
                    run.offering_id,
                    run.provider_pubkey,
                    run.close_id,
                ) is Ok
            }
            &&& read is Ok ==> {
                &&& given == route_proof_doc(
                    "liquid-reverse"@,
                    provider_index,
                    chain_lifecycle_reading(
                        records,
                        kinds,
                        run.offering_id,
                        run.provider_pubkey,
                        run.close_id,
                    )->Ok_0,
                    leg_proof_doc(
                        "liquid"@,
                        run.funding_id,
                        run.funding_output,
                        run.funding_hex,
                        run.claim_id,
                        run.claim_hex,
                    ),
                    seq!["liquid_reverse_fund"@],
                    seq!["provider_funding_broadcast"@],
                    "requester"@,
                    "claim"@,
                    run.payment_hash,
                    run.restart_proof,
                )
            }
        }),
{
}

impl LiquidReverseRun {
    /// The proof of the finished swap, from the records that were signed in it; nothing before it
    /// is over.
    pub fn process_proof(
        &self,
        provider_index: usize,
        records: &Vec<Event>,
        kinds: RecordKinds,
    ) -> (proven: Option<Result<Json, String>>)
        ensures
            match proven {
                Some(proven) => self@.phase == LiquidReversePhase::Finished && told_json(proven) == liquid_reverse_proof_reading(
                    self@,
                    provider_index,
                    records@,
                    kinds,
                ),
                None => self@.phase != LiquidReversePhase::Finished,
            },
    {
        if self.phase == LiquidReversePhase::Finished {
            Some(self.proof_document(provider_index, records, kinds))
        } else {
            None
        }
    }

    fn proof_document(&self, provider_index: usize, records: &Vec<Event>, kinds: RecordKinds) -> (
    proven: Result<Json, String>)
        ensures
            told_json(proven) == liquid_reverse_proof_reading(
                self@,
                provider_index,
                records@,
                kinds,
            ),
    {
        let lifecycle: Json = chain_lifecycle_event_ids(
            records,
            kinds,
            self.offering_id.as_str(),
            self.provider_pubkey.as_str(),
            self.close_id.as_str(),
        )?;
        let rail: Json = chain_leg_process_proof(
            "liquid",
            self.funding_id.as_str(),
            self.funding_output,
            self.funding_hex.as_str(),
            self.claim_id.as_str(),
            self.claim_hex.as_str(),
        );
        let operations: Vec<&str> = vec!["liquid_reverse_fund"];
        let anchors: Vec<&str> = vec!["provider_funding_broadcast"];
        assert(name_views(operations@) =~= seq!["liquid_reverse_fund"@]);
        assert(name_views(anchors@) =~= seq!["provider_funding_broadcast"@]);
        Ok(
            liquid_route_proof(
                "liquid-reverse",
                provider_index,
                lifecycle,
                rail,
                &operations,
                &anchors,
                "requester",
                "claim",
                self.payment_hash.as_str(),
                &self.restart_proof,
            ),
        )
    }
}

/// What the proof of a Liquid route says: the one rail is Liquid, the end of it is by the actor and path
/// that are given, and the restarted provider had reached the first of its effects and states.
pub proof fn law_route_proof_stands_by_name(
    shape: Seq<char>,
    provider_index: usize,
    lifecycle: JsonView,
    rail: JsonView,
    operations: Seq<Seq<char>>,
    anchors: Seq<Seq<char>>,
    actor: Seq<char>,
    path: Seq<char>,
    payment_hash: Seq<char>,
    restart_proof: JsonView,
)
    ensures
        ({
            let case = member(
                route_proof_doc(
                    shape,
                    provider_index,
                    lifecycle,
                    rail,
                    operations,
                    anchors,
                    actor,
                    path,
                    payment_hash,
                    restart_proof,
                ),
                "liquid_case"@,
            );
            let restart = step(case, "provider_restart"@);
            let terminal = step(case, "liquid_terminal"@);
            &&& text_of(step(case, "shape"@)) == Some(shape)
            &&& text_of(step(case, "selected_provider"@)) == Some(provider_name(provider_index))
            &&& step(case, "signed_lifecycle_event_ids"@) == Some(lifecycle)
            &&& step(step(case, "rails"@), "liquid"@) == Some(rail)
            &&& step(case, "provider_effect_operations"@) == Some(texts_doc(operations))
            &&& step(case, "provider_status_anchors"@) == Some(texts_doc(anchors))
            &&& step(case, "lightning_terminal"@) == Some(route_lightning_doc(shape, payment_hash))
            &&& text_of(step(terminal, "actor"@)) == Some(actor)
            &&& text_of(step(terminal, "path"@)) == Some(path)
            &&& text_of(step(restart, "target"@)) == Some(provider_name(provider_index))
            &&& text_of(step(restart, "checkpoint_effect_operation"@)) == Some(
                first_text(operations),
            )
            &&& text_of(step(restart, "checkpoint_status_state"@)) == Some(first_text(anchors))
            &&& step(restart, "process_replaced"@) == Some(
                JsonView::Bool(shows_replacement(restart_proof)),
            )
        }),
{
    reveal_strlit("schema");
    reveal_strlit("shape");
    reveal_strlit("selected_provider");
    reveal_strlit("signed_lifecycle_event_ids");
    reveal_strlit("rails");
    reveal_strlit("provider_effect_operations");
    reveal_strlit("provider_status_anchors");
    reveal_strlit("provider_restart");
    reveal_strlit("liquid_terminal");
    reveal_strlit("lightning_terminal");
    reveal_strlit("recovery");
    assert("schema"@.len() == 6);
    assert("shape"@.len() == 5);
    assert("selected_provider"@.len() == 17);
    assert("signed_lifecycle_event_ids"@.len() == 26);
    assert("rails"@.len() == 5);
    assert("provider_effect_operations"@.len() == 26);
    assert("provider_status_anchors"@.len() == 23);
    assert("provider_restart"@.len() == 16);
    assert("liquid_terminal"@.len() == 15);
    assert("lightning_terminal"@.len() == 18);
    assert("recovery"@.len() == 8);
    assert("shape"@[0] == 's');
    assert("rails"@[0] == 'r');
    assert("signed_lifecycle_event_ids"@[0] == 's');
    assert("provider_effect_operations"@[0] == 'p');
    reveal_strlit("actor");
    reveal_strlit("path");
    reveal_strlit("effect_class");
    reveal_strlit("confirmed");
    assert("actor"@.len() == 5);
    assert("path"@.len() == 4);
    assert("effect_class"@.len() == 12);
    assert("confirmed"@.len() == 9);
    reveal_strlit("target");
    reveal_strlit("checkpoint_effect_operation");
    reveal_strlit("checkpoint_status_state");
    reveal_strlit("process_replaced");
    reveal_strlit("restored_from_postgres");
    reveal_strlit("exact_known_replay");
    reveal_strlit("duplicate_external_effects");
    assert("target"@.len() == 6);
    assert("checkpoint_effect_operation"@.len() == 27);
    assert("checkpoint_status_state"@.len() == 23);
    assert("process_replaced"@.len() == 16);
    assert("restored_from_postgres"@.len() == 22);
    assert("exact_known_replay"@.len() == 18);
    assert("duplicate_external_effects"@.len() == 26);
}

} // verus!
