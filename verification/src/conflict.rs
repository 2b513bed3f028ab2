//! Conflicts with a lock: a double spend before it, and an acceptance that is withdrawn after it.

use vstd::prelude::*;
use crate::contract::{first_with, find_with, same_bytes};
use crate::control::said;
use crate::hex::{hex_text, lower_hex};
use crate::journey::HarnessInjection;
use crate::json::{
    Json, JsonObject, JsonView, items_of, items_view, lemma_items_view, member, member_text,
    members_of, no_members, number_doc, text_doc, text_of, u64_of,
};
use crate::machine::{
    Action, ActionView, Reply, ReplyView, Task, effect_details, effect_doc, inputs_view,
    lemma_milestone, lemma_ranks_rise, perform, perform_with, perform_with_three, perform_with_two,
    wrong_reply, wrong_reply_text,
};
use crate::order::wants_zero_confirmation;
use crate::record::{Event, RecordKinds, profile_reading, record_profile, told_object};
use crate::status::{is_provider_word, provider_said};
use crate::terminal::TxInput;
use crate::text::{is_text, join, maybe_str, same_text, told};

verus! {

/// An outpoint as it is shown: its identifier in display order, and its output.
pub open spec fn shown_outpoint(input: TxInput) -> (Seq<char>, u32) {
    (hex_text(input.previous_txid@.reverse()), input.previous_output)
}

/// The one outpoint that a lock and its conflict both spend.
pub open spec fn conflict_input_reading(
    committed: Result<Seq<TxInput>, Seq<char>>,
    conflicting: Result<Seq<TxInput>, Seq<char>>,
) -> Result<(Seq<char>, u32), Seq<char>> {
    match committed {
        Err(message) => Err("committed funding transaction is invalid: "@ + message),
        Ok(committed) => match conflicting {
            Err(message) => Err("conflicting funding transaction is invalid: "@ + message),
            Ok(conflicting) => if committed.len() == 0 {
                Err("committed funding transaction has no input"@)
            } else if conflicting.len() == 0 {
                Err("conflicting funding transaction has no input"@)
            } else if committed.len() != 1 || conflicting.len() != 1
                || committed[0].previous_txid@ != conflicting[0].previous_txid@
                || committed[0].previous_output != conflicting[0].previous_output {
                Err("conflicting transaction does not spend the exact committed input"@)
            } else {
                Ok(shown_outpoint(committed[0]))
            },
        },
    }
}

/// The one outpoint that a lock and its conflict both spend: it can be had exactly where every part
/// that it rests on can, and each part of it is the one that its name says.
pub proof fn law_conflict_input_is_read_from_its_parts(
    committed: Result<Seq<TxInput>, Seq<char>>,
    conflicting: Result<Seq<TxInput>, Seq<char>>,
)
    ensures
        ({
            let read = conflict_input_reading(committed, conflicting);
            let read_committed = committed->Ok_0;
            let read_conflicting = conflicting->Ok_0;
            let given = read->Ok_0;
            &&& read is Ok <==> {
                &&& committed is Ok
                &&& conflicting is Ok
                &&& read_committed.len() != 0
                &&& read_conflicting.len() != 0
                &&& read_committed.len() == 1
                &&& read_conflicting.len() == 1
                &&& read_committed[0].previous_txid@ == read_conflicting[0].previous_txid@
                &&& read_committed[0].previous_output == read_conflicting[0].previous_output
            }
            &&& read is Ok ==> {
                &&& given == shown_outpoint(read_committed[0])
            }
        }),
{
}

fn reversed(bytes: &Vec<u8>) -> (turned: Vec<u8>)
    ensures
        turned@ == bytes@.reverse(),
{
    let mut turned: Vec<u8> = Vec::new();
    let mut left: usize = bytes.len();
    while left > 0
        invariant
            left <= bytes@.len(),
            turned@.len() == bytes@.len() - left,
            forall|j: int|
                0 <= j < turned@.len() ==> #[trigger] turned@[j] == bytes@[bytes@.len() - 1 - j],
        decreases left,
    {
        left = left - 1;
        turned.push(bytes[left]);
    }
    assert(turned@ =~= bytes@.reverse());
    turned
}

/// The one outpoint that a lock and its conflict both spend.
pub fn conflict_input(
    committed: &Result<Vec<TxInput>, String>,
    conflicting: &Result<Vec<TxInput>, String>,
) -> (input: Result<(String, u32), String>)
    ensures
        (match input {
            Ok((id, output)) => Ok((id@, output)),
            Err(message) => Err(message@),
        }) == conflict_input_reading(inputs_view(*committed), inputs_view(*conflicting)),
{
    let committed: &Vec<TxInput> = match committed {
        Ok(inputs) => inputs,
        Err(message) => {
            return Err(join("committed funding transaction is invalid: ", message.as_str()));
        },
    };
    let conflicting: &Vec<TxInput> = match conflicting {
        Ok(inputs) => inputs,
        Err(message) => {
            return Err(join("conflicting funding transaction is invalid: ", message.as_str()));
        },
    };
    if committed.len() == 0 {
        return Err("committed funding transaction has no input".to_owned());
    }
    if conflicting.len() == 0 {
        return Err("conflicting funding transaction has no input".to_owned());
    }
    if committed.len() != 1 || conflicting.len() != 1 || !same_bytes(
        &committed[0].previous_txid,
        &conflicting[0].previous_txid,
    ) || committed[0].previous_output != conflicting[0].previous_output {
        return Err("conflicting transaction does not spend the exact committed input".to_owned());
    }
    let shown: Vec<u8> = reversed(&committed[0].previous_txid);
    Ok((lower_hex(shown.as_slice()), committed[0].previous_output))
}

/// Whether an array has a text among its items.
pub open spec fn lists_text(listing: JsonView, text: Seq<char>) -> bool {
    match items_of(Some(listing)) {
        None => false,
        Some(items) => exists|i: int|
            0 <= i < items.len() && text_of(Some(#[trigger] items[i])) == Some(text),
    }
}

fn some_text(listing: &Json, text: &str) -> (found: bool)
    ensures
        found == lists_text(listing@, text@),
{
    let items: &Vec<Json> = match listing.as_array() {
        Some(items) => items,
        None => {
            return false;
        },
    };
    proof {
        lemma_items_view(items@);
    }
    let mut i: usize = 0;
    while i < items.len()
        invariant
            i <= items@.len(),
            items_of(Some(listing@)) == Some(items_view(items@)),
            items_view(items@).len() == items@.len(),
            forall|j: int|
                0 <= j < items@.len() ==> #[trigger] items_view(items@)[j] == items@[j]@,
            forall|j: int|
                0 <= j < i ==> text_of(Some(#[trigger] items_view(items@)[j])) != Some(text@),
        decreases items@.len() - i,
    {
        assert(items_view(items@)[i as int] == items@[i as int]@);
        if is_text(items[i].as_str(), text) {
            return true;
        }
        i = i + 1;
    }
    false
}

/// Why an acceptance is withdrawn after a fault; `None` where the fault does not concern one.
pub open spec fn downgrade_reason(injection: HarnessInjection) -> Option<Seq<char>> {
    match injection {
        HarnessInjection::ZeroConfRbfReplacement => Some("replacement"@),
        HarnessInjection::ZeroConfDoubleSpend => Some("conflict"@),
        HarnessInjection::ZeroConfAncestorEviction => Some("ancestor_unconfirmed"@),
        _ => None,
    }
}

/// The reason as text.
pub open spec fn reason_text(injection: HarnessInjection) -> Seq<char> {
    match downgrade_reason(injection) {
        Some(reason) => reason,
        None => ""@,
    }
}

/// Whether the competing transaction signals that it may be replaced.
pub open spec fn signals_text(injection: HarnessInjection) -> Seq<char> {
    if injection == HarnessInjection::ZeroConfRbfReplacement {
        "replacement"@
    } else {
        "conflict"@
    }
}

/// The decision about a lock without confirmations that a status carries.
pub open spec fn decision_reading(content: Seq<char>, missing: Seq<char>) -> Result<
    Map<Seq<char>, JsonView>,
    Seq<char>,
> {
    match profile_reading(content) {
        Err(message) => Err(message),
        Ok(profile) => match members_of(
            member(JsonView::Object(profile), "zero_confirmation_acceptance"@),
        ) {
            Some(decision) => Ok(decision),
            None => Err(missing),
        },
    }
}

/// The decision about a lock without confirmations that a status carries: it can be had exactly
/// where every part that it rests on can, and each part of it is the one that its name says.
pub proof fn law_decision_is_read_from_its_parts(content: Seq<char>, missing: Seq<char>)
    ensures
        ({
            let read = decision_reading(content, missing);
            let profile = profile_reading(content)->Ok_0;
            let given = read->Ok_0;
            &&& read is Ok <==> {
                &&& profile_reading(content) is Ok
                &&& members_of(
                    member(JsonView::Object(profile), "zero_confirmation_acceptance"@),
                ) is Some
            }
            &&& read is Ok ==> {
                &&& given == members_of(
                    member(JsonView::Object(profile), "zero_confirmation_acceptance"@),
                )->0
            }
        }),
{
}

/// The decision about a lock without confirmations that a status carries.
pub fn zero_conf_decision(status: &Event, missing: &str) -> (decision: Result<JsonObject, String>)
    ensures
        told_object(decision) == decision_reading(status.content@, missing@),
{
    let profile: JsonObject = record_profile(status)?;
    match profile.get("zero_confirmation_acceptance") {
        Some(value) => match value.as_object() {
            Some(decision) => Ok(decision.copy()),
            None => Err(missing.to_owned()),
        },
        None => Err(missing.to_owned()),
    }
}

/// Whether a decision accepts a lock by the provider's own view of the chain.
pub open spec fn accepts_locally(
    decision: Map<Seq<char>, JsonView>,
    funding_txid: Seq<char>,
) -> bool {
    &&& said(decision, "decision"@) == Some("accepted"@)
    &&& said(decision, "transaction_id"@) == Some(funding_txid)
    &&& said(decision, "view"@) == Some("provider_local_bitcoind"@)
}

fn decision_accepts(decision: &JsonObject, funding_txid: &str) -> (accepts: bool)
    ensures
        accepts == accepts_locally(decision@, funding_txid@),
{
    decision.says("decision", "accepted") && decision.says("transaction_id", funding_txid)
        && decision.says("view", "provider_local_bitcoind")
}

/// How a text that may be missing is shown in a diagnosis.
pub uninterp spec fn shown_option(text: Option<Seq<char>>) -> Seq<char>;

/// Shows a text that may be missing with the `Debug` form of std's `Option<&str>`: the result is
/// some text that the argument alone decides. Which escapes it has is not stated.
#[verifier::external_body]
fn show_option(text: Option<&str>) -> (shown: String)
    ensures
        shown@ == shown_option(maybe_str(text)),
{
    format!("{text:?}")
}

/// The diagnosis of a decision that does not bind what was expected.
pub open spec fn mismatch_text(
    decision: Map<Seq<char>, JsonView>,
    funding_txid: Seq<char>,
) -> Seq<char> {
    "zero-conf downgrade binding mismatch: decision="@ + shown_option(said(decision, "decision"@))
        + " reason="@ + shown_option(said(decision, "reason"@)) + " transaction_matches="@ + (
    if said(decision, "transaction_id"@) == Some(funding_txid) {
        "true"@
    } else {
        "false"@
    })
}

fn mismatch(decision: &JsonObject, funding_txid: &str) -> (message: String)
    ensures
        message@ == mismatch_text(decision@, funding_txid@),
{
    let mut message: String = "zero-conf downgrade binding mismatch: decision=".to_owned();
    message.append(show_option(decision.text_at("decision")).as_str());
    message.append(" reason=");
    message.append(show_option(decision.text_at("reason")).as_str());
    message.append(" transaction_matches=");
    message.append(
        if decision.says("transaction_id", funding_txid) {
            "true"
        } else {
            "false"
        },
    );
    message
}

/// What a decision reads as that withdraws an acceptance.
pub open spec fn downgrade_reading(
    decision: Map<Seq<char>, JsonView>,
    injection: HarnessInjection,
    funding_txid: Seq<char>,
    attack_reference: Seq<char>,
) -> Result<(), Seq<char>> {
    let replaced = injection != HarnessInjection::ZeroConfAncestorEviction;
    if said(decision, "decision"@) != Some("confirmation_required"@) || said(decision, "reason"@)
        != Some(reason_text(injection)) || said(decision, "transaction_id"@) != Some(funding_txid) {
        Err(mismatch_text(decision, funding_txid))
    } else if replaced && said(decision, "replacement_transaction_id"@) != Some(attack_reference)
        || !replaced && decision.dom().contains("replacement_transaction_id"@) {
        Err("zero-conf downgrade carries the wrong replacement binding"@)
    } else {
        Ok(())
    }
}

/// What a decision reads as that withdraws an acceptance: it holds exactly where every one of these
/// conditions does.
pub proof fn law_downgrade_holds_by_its_parts(
    decision: Map<Seq<char>, JsonView>,
    injection: HarnessInjection,
    funding_txid: Seq<char>,
    attack_reference: Seq<char>,
)
    ensures
        ({
            let read = downgrade_reading(decision, injection, funding_txid, attack_reference);
            let replaced = injection != HarnessInjection::ZeroConfAncestorEviction;
            &&& read is Ok <==> {
                &&& said(decision, "decision"@) == Some("confirmation_required"@)
                &&& said(decision, "reason"@) == Some(reason_text(injection))
                &&& said(decision, "transaction_id"@) == Some(funding_txid)
                &&& !(
                    replaced
                        && said(decision, "replacement_transaction_id"@) != Some(attack_reference)
                )
                &&& !(!replaced && decision.dom().contains("replacement_transaction_id"@))
            }
        }),
{
}

/// Whether the provider has paid, or is about to.
pub open spec fn provider_paid(
    records: Seq<Event>,
    kinds: RecordKinds,
    provider: Seq<char>,
) -> bool {
    exists|i: int|
        0 <= i < records.len() && (is_provider_word(
            #[trigger] records[i],
            kinds,
            provider,
            "lightning_payment_pending"@,
        ) || is_provider_word(records[i], kinds, provider, "lightning_paid"@))
}

fn some_payment(records: &Vec<Event>, kinds: RecordKinds, provider: &str) -> (found: bool)
    ensures
        found == provider_paid(records@, kinds, provider@),
{
    provider_said(records, kinds, provider, "lightning_payment_pending") || provider_said(
        records,
        kinds,
        provider,
        "lightning_paid",
    )
}

/// What a list of invoices reads as: the first invoice of the payment is unpaid.
pub open spec fn unpaid_reading(listing: JsonView, hash: Seq<char>) -> Result<(), Seq<char>> {
    let found = match items_of(member(listing, "invoices"@)) {
        None => None,
        Some(invoices) => match first_with(invoices, "payment_hash"@, hash) {
            None => None,
            Some(invoice) => member_text(invoice, "status"@),
        },
    };
    match found {
        None => Err("zero-conf invoice is absent from local CLN"@),
        Some(status) => if status != "unpaid"@ {
            Err("zero-conf downgrade did not leave the invoice unpaid"@)
        } else {
            Ok(())
        },
    }
}

/// Checks that the first invoice of a payment is unpaid.
pub fn check_unpaid(listing: &Json, payment_hash: &str) -> (checked: Result<(), String>)
    ensures
        told(checked) == unpaid_reading(listing@, payment_hash@),
{
    let absent: &str = "zero-conf invoice is absent from local CLN";
    let invoices: &Vec<Json> = match listing.get("invoices") {
        Some(value) => match value.as_array() {
            Some(invoices) => invoices,
            None => {
                return Err(absent.to_owned());
            },
        },
        None => {
            return Err(absent.to_owned());
        },
    };
    let status: &str = match find_with(invoices, "payment_hash", payment_hash) {
        Some(invoice) => match invoice.text_at("status") {
            Some(status) => status,
            None => {
                return Err(absent.to_owned());
            },
        },
        None => {
            return Err(absent.to_owned());
        },
    };
    if !same_text(status, "unpaid") {
        return Err("zero-conf downgrade did not leave the invoice unpaid".to_owned());
    }
    Ok(())
}

/// What is known of a lock that waits for an ancestor: whether it has acquired one.
pub open spec fn has_ancestor(entry: JsonView) -> bool {
    &&& u64_of(member(entry, "ancestorcount"@)) == Some(2u64)
    &&& match items_of(member(entry, "depends"@)) {
        Some(dependencies) => dependencies.len() > 0,
        None => false,
    }
}

/// Whether an entry of the mempool has acquired an unconfirmed ancestor.
pub fn acquired_ancestor(entry: &Json) -> (acquired: bool)
    ensures
        acquired == has_ancestor(entry@),
{
    let depends: bool = match entry.get("depends") {
        Some(value) => match value.as_array() {
            Some(dependencies) => {
                proof {
                    lemma_items_view(dependencies@);
                }
                dependencies.len() > 0
            },
            None => false,
        },
        None => false,
    };
    match entry.u64_at("ancestorcount") {
        Some(count) => count == 2 && depends,
        None => false,
    }
}

/// The phases of a conflict before settlement, in their order.
#[derive(Clone, Copy, Debug, PartialEq, Eq, Structural)]
pub enum RbfConflictPhase {
    BuildConflict,
    ParseInputs,
    BroadcastConflict,
    ReadMempool,
    BroadcastCommitted,
    ObserveConflict,
    Finished,
}

impl RbfConflictPhase {
    /// The place of the phase in their order.
    pub open spec fn rank(self) -> int {
        match self {
            RbfConflictPhase::BuildConflict => 0,
            RbfConflictPhase::ParseInputs => 1,
            RbfConflictPhase::BroadcastConflict => 2,
            RbfConflictPhase::ReadMempool => 3,
            RbfConflictPhase::BroadcastCommitted => 4,
            RbfConflictPhase::ObserveConflict => 5,
            RbfConflictPhase::Finished => 6,
        }
    }
}

/// A lock whose input is spent by another transaction first.
pub struct RbfConflictRun {
    pub phase: RbfConflictPhase,
    pub order_id: String,
    pub payment_hash: String,
    pub committed_txid: String,
    pub committed_hex: String,
    pub conflict_txid: String,
    pub conflict_hex: String,
    pub input_txid: String,
    pub input_output: u32,
}

/// A lock whose input is spent by another transaction first.
#[verifier::ext_equal]
pub struct RbfConflictRunView {
    pub phase: RbfConflictPhase,
    pub order_id: Seq<char>,
    pub payment_hash: Seq<char>,
    pub committed_txid: Seq<char>,
    pub committed_hex: Seq<char>,
    pub conflict_txid: Seq<char>,
    pub conflict_hex: Seq<char>,
    pub input_txid: Seq<char>,
    pub input_output: u32,
}

impl View for RbfConflictRun {
    type V = RbfConflictRunView;

    open spec fn view(&self) -> RbfConflictRunView {
        RbfConflictRunView {
            phase: self.phase,
            order_id: self.order_id@,
            payment_hash: self.payment_hash@,
            committed_txid: self.committed_txid@,
            committed_hex: self.committed_hex@,
            conflict_txid: self.conflict_txid@,
            conflict_hex: self.conflict_hex@,
            input_txid: self.input_txid@,
            input_output: self.input_output,
        }
    }
}

/// What a conflict before settlement asks for next.
pub open spec fn rbf_conflict_action(run: RbfConflictRunView) -> ActionView {
    match run.phase {
        RbfConflictPhase::BuildConflict => ActionView::Perform(Task::BuildConflict, seq![]),
        RbfConflictPhase::ParseInputs => ActionView::Perform(
            Task::ParseInputs,
            seq![run.committed_hex, run.conflict_hex],
        ),
        RbfConflictPhase::BroadcastConflict => ActionView::Perform(
            Task::BroadcastCompetitor,
            seq!["rbf-conflict-broadcast"@, run.conflict_hex],
        ),
        RbfConflictPhase::ReadMempool => ActionView::Perform(
            Task::ReadMempool,
            seq!["rbf-conflict-mempool"@],
        ),
        RbfConflictPhase::BroadcastCommitted => ActionView::Perform(
            Task::BroadcastCompetitor,
            seq!["rbf-committed-rejected"@, run.committed_hex],
        ),
        RbfConflictPhase::ObserveConflict => ActionView::Perform(
            Task::ObserveConflict,
            seq!["source"@, run.committed_hex],
        ),
        RbfConflictPhase::Finished => ActionView::Finish,
    }
}

/// Where a reply takes a conflict before settlement.
pub open spec fn rbf_conflict_step(run: RbfConflictRunView, reply: ReplyView) -> Result<
    RbfConflictRunView,
    Seq<char>,
> {
    match (run.phase, reply) {
        (RbfConflictPhase::BuildConflict, ReplyView::Texts(texts)) => {
            if texts.len() != 2 {
                Err(wrong_reply())
            } else if texts[0] == run.committed_txid {
                Err("same-input conflict did not change the transaction ID"@)
            } else {
                Ok(
                    RbfConflictRunView {
                        phase: RbfConflictPhase::ParseInputs,
                        conflict_txid: texts[0],
                        conflict_hex: texts[1],
                        ..run
                    },
                )
            }
        },
        (RbfConflictPhase::ParseInputs, ReplyView::SpentInputs { committed, conflicting }) => match conflict_input_reading(
            committed,
            conflicting,
        ) {
            Err(message) => Err(message),
            Ok(input) => Ok(
                RbfConflictRunView {
                    phase: RbfConflictPhase::BroadcastConflict,
                    input_txid: input.0,
                    input_output: input.1,
                    ..run
                },
            ),
        },
        (RbfConflictPhase::BroadcastConflict, ReplyView::Texts(texts)) => {
            if texts.len() != 1 {
                Err(wrong_reply())
            } else if texts[0] != run.conflict_txid {
                Err("bitcoind returned another conflict transaction ID"@)
            } else {
                Ok(RbfConflictRunView { phase: RbfConflictPhase::ReadMempool, ..run })
            }
        },
        (RbfConflictPhase::BroadcastConflict, ReplyView::Refused { code, message }) => Err(
            "could not broadcast same-input conflict: "@ + message,
        ),
        (RbfConflictPhase::ReadMempool, ReplyView::Document(Some(mempool))) => {
            if !lists_text(mempool, run.conflict_txid) {
                Err("same-input conflict is absent from the real regtest mempool"@)
            } else {
                Ok(RbfConflictRunView { phase: RbfConflictPhase::BroadcastCommitted, ..run })
            }
        },
        (RbfConflictPhase::BroadcastCommitted, ReplyView::Refused { code, message }) => {
            if code != "-26"@ {
                Err("committed transaction returned another conflict refusal: "@ + message)
            } else {
                Ok(RbfConflictRunView { phase: RbfConflictPhase::ObserveConflict, ..run })
            }
        },
        (RbfConflictPhase::BroadcastCommitted, ReplyView::Texts(_)) => Err(
            "bitcoind accepted both same-input transactions"@,
        ),
        (RbfConflictPhase::ObserveConflict, ReplyView::Refused { code, message }) => {
            if code != "swp_rbf_policy_violation"@ {
                Err("same-input conflict returned another client refusal: "@ + message)
            } else {
                Ok(RbfConflictRunView { phase: RbfConflictPhase::Finished, ..run })
            }
        },
        (RbfConflictPhase::ObserveConflict, ReplyView::Done) => Err(
            "replacement-reject policy accepted a real conflict"@,
        ),
        _ => Err(wrong_reply()),
    }
}

impl RbfConflictRun {
    /// A conflict before settlement before its first action.
    pub fn new(
        order_id: &str,
        payment_hash: &str,
        committed_txid: &str,
        committed_hex: &str,
    ) -> (run: RbfConflictRun)
        ensures
            run@.phase == RbfConflictPhase::BuildConflict,
            run@.order_id == order_id@,
            run@.payment_hash == payment_hash@,
            run@.committed_txid == committed_txid@,
            run@.committed_hex == committed_hex@,
            run@.conflict_txid == Seq::<char>::empty(),
            run@.conflict_hex == Seq::<char>::empty(),
            run@.input_txid == Seq::<char>::empty(),
            run@.input_output == 0,
    {
        RbfConflictRun {
            phase: RbfConflictPhase::BuildConflict,
            order_id: order_id.to_owned(),
            payment_hash: payment_hash.to_owned(),
            committed_txid: committed_txid.to_owned(),
            committed_hex: committed_hex.to_owned(),
            conflict_txid: String::new(),
            conflict_hex: String::new(),
            input_txid: String::new(),
            input_output: 0,
        }
    }

    /// What the journey asks for next.
    pub fn action(&self) -> (action: Action)
        ensures
            action@ == rbf_conflict_action(self@),
    {
        match self.phase {
            RbfConflictPhase::BuildConflict => perform(Task::BuildConflict),
            RbfConflictPhase::ParseInputs => perform_with_two(
                Task::ParseInputs,
                self.committed_hex.as_str(),
                self.conflict_hex.as_str(),
            ),
            RbfConflictPhase::BroadcastConflict => perform_with_two(
                Task::BroadcastCompetitor,
                "rbf-conflict-broadcast",
                self.conflict_hex.as_str(),
            ),
            RbfConflictPhase::ReadMempool => perform_with(
                Task::ReadMempool,
                "rbf-conflict-mempool",
            ),
            RbfConflictPhase::BroadcastCommitted => perform_with_two(
                Task::BroadcastCompetitor,
                "rbf-committed-rejected",
                self.committed_hex.as_str(),
            ),
            RbfConflictPhase::ObserveConflict => perform_with_two(
                Task::ObserveConflict,
                "source",
                self.committed_hex.as_str(),
            ),
            RbfConflictPhase::Finished => Action::Finish,
        }
    }

    /// Takes a reply: the journey goes on to its next phase, or ends with a message.
    pub fn advance(&mut self, reply: Reply) -> (moved: Result<(), String>)
        ensures
            match moved {
                Ok(_) => rbf_conflict_step(
                    old(self)@,
                    reply@,
                ) == Ok::<RbfConflictRunView, Seq<char>>(final(self)@),
                Err(message) => {
                    &&& rbf_conflict_step(
                        old(self)@,
                        reply@,
                    ) == Err::<RbfConflictRunView, Seq<char>>(message@)
                    &&& final(self)@ == old(self)@
                },
            },
    {
        match (self.phase, reply) {
            (RbfConflictPhase::BuildConflict, Reply::Texts(texts)) => {
                if texts.len() != 2 {
                    return Err(wrong_reply_text());
                }
                if same_text(texts[0].as_str(), self.committed_txid.as_str()) {
                    return Err("same-input conflict did not change the transaction ID".to_owned());
                }
                self.conflict_txid = texts[0].clone();
                self.conflict_hex = texts[1].clone();
                self.phase = RbfConflictPhase::ParseInputs;
                Ok(())
            },
            (RbfConflictPhase::ParseInputs, Reply::SpentInputs { committed, conflicting }) => {
                let input: (String, u32) = conflict_input(&committed, &conflicting)?;
                self.input_txid = input.0;
                self.input_output = input.1;
                self.phase = RbfConflictPhase::BroadcastConflict;
                Ok(())
            },
            (RbfConflictPhase::BroadcastConflict, Reply::Texts(texts)) => {
                if texts.len() != 1 {
                    return Err(wrong_reply_text());
                }
                if !same_text(texts[0].as_str(), self.conflict_txid.as_str()) {
                    return Err("bitcoind returned another conflict transaction ID".to_owned());
                }
                self.phase = RbfConflictPhase::ReadMempool;
                Ok(())
            },
            (RbfConflictPhase::BroadcastConflict, Reply::Refused { code: _, message }) => {
                Err(join("could not broadcast same-input conflict: ", message.as_str()))
            },
            (RbfConflictPhase::ReadMempool, Reply::Document(Some(mempool))) => {
                if !some_text(&mempool, self.conflict_txid.as_str()) {
                    return Err(
                        "same-input conflict is absent from the real regtest mempool".to_owned(),
                    );
                }
                self.phase = RbfConflictPhase::BroadcastCommitted;
                Ok(())
            },
            (RbfConflictPhase::BroadcastCommitted, Reply::Refused { code, message }) => {
                if !same_text(code.as_str(), "-26") {
                    return Err(
                        join(
                            "committed transaction returned another conflict refusal: ",
                            message.as_str(),
                        ),
                    );
                }
                self.phase = RbfConflictPhase::ObserveConflict;
                Ok(())
            },
            (RbfConflictPhase::BroadcastCommitted, Reply::Texts(_)) => {
                Err("bitcoind accepted both same-input transactions".to_owned())
            },
            (RbfConflictPhase::ObserveConflict, Reply::Refused { code, message }) => {
                if !same_text(code.as_str(), "swp_rbf_policy_violation") {
                    return Err(
                        join(
                            "same-input conflict returned another client refusal: ",
                            message.as_str(),
                        ),
                    );
                }
                self.phase = RbfConflictPhase::Finished;
                Ok(())
            },
            (RbfConflictPhase::ObserveConflict, Reply::Done) => {
                Err("replacement-reject policy accepted a real conflict".to_owned())
            },
            _ => Err(wrong_reply_text()),
        }
    }
}

/// Whether each entry of a trace leads to the one after it, from the first phase on.
pub open spec fn is_rbf_conflict_trace(trace: Seq<(RbfConflictRunView, ReplyView)>) -> bool {
    &&& trace.len() > 0
    &&& trace[0].0.phase == RbfConflictPhase::BuildConflict
    &&& forall|i: int|
        0 <= i < trace.len() - 1 ==> rbf_conflict_step((#[trigger] trace[i]).0, trace[i].1) == Ok::<
            RbfConflictRunView,
            Seq<char>,
        >(trace[i + 1].0)
}

/// Each reply takes a conflict before settlement forward, never back and never in place.
pub proof fn law_rbf_conflict_moves_forward(run: RbfConflictRunView, reply: ReplyView)
    requires
        rbf_conflict_step(run, reply) is Ok,
    ensures
        run.phase.rank() < rbf_conflict_step(run, reply)->Ok_0.phase.rank(),
{
}

/// Which replies take a conflict before settlement on, and to which phase: in each phase exactly
/// the replies that pass every check of that phase, and no others.
pub proof fn law_rbf_conflict_goes_on_only_when_answered(run: RbfConflictRunView, reply: ReplyView)
    ensures
        ({
            let next = rbf_conflict_step(run, reply);
            match run.phase {
                RbfConflictPhase::BuildConflict => {
                    &&& next is Ok <==> {
                        &&& reply is Texts
                        &&& reply->Texts_0.len() == 2
                        &&& reply->Texts_0[0] != run.committed_txid
                    }
                    &&& next is Ok ==> next->Ok_0.phase == RbfConflictPhase::ParseInputs
                },
                RbfConflictPhase::ParseInputs => {
                    &&& next is Ok <==> {
                        &&& reply is SpentInputs
                        &&& conflict_input_reading(
                            reply->SpentInputs_committed,
                            reply->SpentInputs_conflicting,
                        ) is Ok
                    }
                    &&& next is Ok ==> next->Ok_0.phase == RbfConflictPhase::BroadcastConflict
                },
                RbfConflictPhase::BroadcastConflict => {
                    &&& next is Ok <==> {
                        &&& reply is Texts
                        &&& reply->Texts_0.len() == 1
                        &&& reply->Texts_0[0] == run.conflict_txid
                    }
                    &&& next is Ok ==> next->Ok_0.phase == RbfConflictPhase::ReadMempool
                },
                RbfConflictPhase::ReadMempool => {
                    &&& next is Ok <==> {
                        &&& reply is Document
                        &&& reply->Document_0 is Some
                        &&& lists_text(reply->Document_0->0, run.conflict_txid)
                    }
                    &&& next is Ok ==> next->Ok_0.phase == RbfConflictPhase::BroadcastCommitted
                },
                RbfConflictPhase::BroadcastCommitted => {
                    &&& next is Ok <==> {
                        &&& reply is Refused
                        &&& reply->Refused_code == "-26"@
                    }
                    &&& next is Ok ==> next->Ok_0.phase == RbfConflictPhase::ObserveConflict
                },
                RbfConflictPhase::ObserveConflict => {
                    &&& next is Ok <==> {
                        &&& reply is Refused
                        &&& reply->Refused_code == "swp_rbf_policy_violation"@
                    }
                    &&& next is Ok ==> next->Ok_0.phase == RbfConflictPhase::Finished
                },
                RbfConflictPhase::Finished => next is Err,
            }
        }),
{
}

/// The reply that a trace of a conflict before settlement holds for a phase.
pub open spec fn rbf_conflict_told(
    trace: Seq<(RbfConflictRunView, ReplyView)>,
    phase: RbfConflictPhase,
) -> ReplyView {
    trace[choose|i: int| 0 <= i < trace.len() && (#[trigger] trace[i]).0.phase == phase].1
}

/// The values that a run of a conflict before settlement holds, by the replies that gave them: each
/// stays as the reply to one phase gave it, or as the run started with it.
pub open spec fn rbf_conflict_holds(
    trace: Seq<(RbfConflictRunView, ReplyView)>,
    run: RbfConflictRunView,
) -> bool {
    let start = trace[0].0;
    let conflict_txid = rbf_conflict_told(trace, RbfConflictPhase::BuildConflict)->Texts_0[0];
    let conflict_hex = rbf_conflict_told(trace, RbfConflictPhase::BuildConflict)->Texts_0[1];
    let input_txid = conflict_input_reading(
        rbf_conflict_told(trace, RbfConflictPhase::ParseInputs)->SpentInputs_committed,
        rbf_conflict_told(trace, RbfConflictPhase::ParseInputs)->SpentInputs_conflicting,
    )->Ok_0.0;
    let input_output = conflict_input_reading(
        rbf_conflict_told(trace, RbfConflictPhase::ParseInputs)->SpentInputs_committed,
        rbf_conflict_told(trace, RbfConflictPhase::ParseInputs)->SpentInputs_conflicting,
    )->Ok_0.1;
    &&& run.order_id == start.order_id
    &&& run.payment_hash == start.payment_hash
    &&& run.committed_txid == start.committed_txid
    &&& run.committed_hex == start.committed_hex
    &&& run.phase.rank() > RbfConflictPhase::BuildConflict.rank()
        ==> run.conflict_txid == conflict_txid
    &&& run.phase.rank() > RbfConflictPhase::BuildConflict.rank()
        ==> run.conflict_hex == conflict_hex
    &&& run.phase.rank() > RbfConflictPhase::ParseInputs.rank() ==> run.input_txid == input_txid
    &&& run.phase.rank() > RbfConflictPhase::ParseInputs.rank() ==> run.input_output == input_output
}

/// No phase of a conflict before settlement comes twice in a trace.
proof fn lemma_rbf_conflict_told_once(trace: Seq<(RbfConflictRunView, ReplyView)>, place: int)
    requires
        is_rbf_conflict_trace(trace),
        0 <= place < trace.len(),
    ensures
        rbf_conflict_told(trace, trace[place].0.phase) == trace[place].1,
{
    let phase = trace[place].0.phase;
    let other = choose|i: int| 0 <= i < trace.len() && (#[trigger] trace[i]).0.phase == phase;
    assert(trace[place].0.phase == phase);
    if other != place {
        let (early, late) = if other < place {
            (other, place)
        } else {
            (place, other)
        };
        assert forall|run: RbfConflictRunView, reply: ReplyView|
            (#[trigger] rbf_conflict_step(run, reply)) is Ok implies run.phase.rank() < rbf_conflict_step(
            run,
            reply,
        )->Ok_0.phase.rank() by {
            law_rbf_conflict_moves_forward(run, reply);
        }
        lemma_ranks_rise(
            trace,
            |run: RbfConflictRunView, reply: ReplyView| rbf_conflict_step(run, reply),
            |run: RbfConflictRunView| run.phase.rank(),
            early,
            late,
        );
    }
}

/// A reply keeps what a conflict before settlement holds, and adds what it tells.
proof fn lemma_rbf_conflict_holds_on(
    trace: Seq<(RbfConflictRunView, ReplyView)>,
    run: RbfConflictRunView,
    reply: ReplyView,
)
    requires
        rbf_conflict_holds(trace, run),
        rbf_conflict_told(trace, run.phase) == reply,
        rbf_conflict_step(run, reply) is Ok,
    ensures
        rbf_conflict_holds(trace, rbf_conflict_step(run, reply)->Ok_0),
{
    let next = rbf_conflict_step(run, reply)->Ok_0;
    match run.phase {
        RbfConflictPhase::BuildConflict => assert(rbf_conflict_holds(trace, next)),
        RbfConflictPhase::ParseInputs => assert(rbf_conflict_holds(trace, next)),
        RbfConflictPhase::BroadcastConflict => assert(rbf_conflict_holds(trace, next)),
        RbfConflictPhase::ReadMempool => assert(rbf_conflict_holds(trace, next)),
        RbfConflictPhase::BroadcastCommitted => assert(rbf_conflict_holds(trace, next)),
        RbfConflictPhase::ObserveConflict => assert(rbf_conflict_holds(trace, next)),
        RbfConflictPhase::Finished => assert(rbf_conflict_holds(trace, next)),
    }
}

/// What a conflict before settlement has been told, it keeps: at every place of a trace each value
/// that the run holds is the one that the reply to the phase that asks for it gave, or the one that
/// the run started with.
pub proof fn law_rbf_conflict_keeps_what_it_was_told(
    trace: Seq<(RbfConflictRunView, ReplyView)>,
    last: int,
)
    requires
        is_rbf_conflict_trace(trace),
        0 <= last < trace.len(),
    ensures
        rbf_conflict_holds(trace, trace[last].0),
    decreases last,
{
    if last > 0 {
        let before = last - 1;
        law_rbf_conflict_keeps_what_it_was_told(trace, before);
        lemma_rbf_conflict_told_once(trace, before);
        assert(rbf_conflict_step(trace[before].0, trace[before].1) == Ok::<RbfConflictRunView, Seq<char>>(
            trace[before + 1].0,
        ));
        lemma_rbf_conflict_holds_on(trace, trace[before].0, trace[before].1);
    }
}

/// What a conflict before settlement asks for in each phase, in terms of the replies before it: the
/// values in a request are those that the replies to the named phases gave, or those that the run
/// started with.
pub proof fn law_rbf_conflict_asks_with_what_it_was_told(
    trace: Seq<(RbfConflictRunView, ReplyView)>,
    last: int,
)
    requires
        is_rbf_conflict_trace(trace),
        0 <= last < trace.len(),
    ensures
        ({
            let start = trace[0].0;
            let conflict_hex = rbf_conflict_told(trace, RbfConflictPhase::BuildConflict)->Texts_0[1];
            let action = rbf_conflict_action(trace[last].0);
            match trace[last].0.phase {
                RbfConflictPhase::BuildConflict => action == ActionView::Perform(
                    Task::BuildConflict,
                    seq![],
                ),
                RbfConflictPhase::ParseInputs => action == ActionView::Perform(
                    Task::ParseInputs,
                    seq![start.committed_hex, conflict_hex],
                ),
                RbfConflictPhase::BroadcastConflict => action == ActionView::Perform(
                    Task::BroadcastCompetitor,
                    seq!["rbf-conflict-broadcast"@, conflict_hex],
                ),
                RbfConflictPhase::ReadMempool => action == ActionView::Perform(
                    Task::ReadMempool,
                    seq!["rbf-conflict-mempool"@],
                ),
                RbfConflictPhase::BroadcastCommitted => action == ActionView::Perform(
                    Task::BroadcastCompetitor,
                    seq!["rbf-committed-rejected"@, start.committed_hex],
                ),
                RbfConflictPhase::ObserveConflict => action == ActionView::Perform(
                    Task::ObserveConflict,
                    seq!["source"@, start.committed_hex],
                ),
                RbfConflictPhase::Finished => action == ActionView::Finish,
            }
        }),
{
    law_rbf_conflict_keeps_what_it_was_told(trace, last);
}

/// What a conflict before settlement reports at its end is what it was told on the way: each
/// identifier in the report is the one that the reply to the named phase gave, or one that the run
/// started with.
pub proof fn law_rbf_conflict_result_names_what_it_was_told(
    trace: Seq<(RbfConflictRunView, ReplyView)>,
    last: int,
)
    requires
        is_rbf_conflict_trace(trace),
        0 <= last < trace.len(),
        trace[last].0.phase == RbfConflictPhase::Finished,
    ensures
        ({
            let start = trace[0].0;
            let conflict_txid = rbf_conflict_told(trace, RbfConflictPhase::BuildConflict)->Texts_0[0];
            let input_txid = conflict_input_reading(
                rbf_conflict_told(trace, RbfConflictPhase::ParseInputs)->SpentInputs_committed,
                rbf_conflict_told(trace, RbfConflictPhase::ParseInputs)->SpentInputs_conflicting,
            )->Ok_0.0;
            let input_output = conflict_input_reading(
                rbf_conflict_told(trace, RbfConflictPhase::ParseInputs)->SpentInputs_committed,
                rbf_conflict_told(trace, RbfConflictPhase::ParseInputs)->SpentInputs_conflicting,
            )->Ok_0.1;
            rbf_conflict_result(trace[last].0) == JsonView::Object(
                no_members().insert("order_id"@, text_doc(start.order_id)).insert("payment_hash"@, text_doc(start.payment_hash)).insert("committed_txid"@, text_doc(start.committed_txid)).insert("conflict_txid"@, text_doc(conflict_txid)).insert("input_txid"@, text_doc(input_txid)).insert("input_vout"@, number_doc(input_output as u64)).insert(
                    "expected_code"@,
                    text_doc("swp_rbf_policy_violation"@),
                ).insert("outcome"@, text_doc("rejected_before_effect"@)).insert("conflict_in_mempool"@, JsonView::Bool(true)).insert(
                    "committed_broadcast_rejected"@,
                    JsonView::Bool(true),
                ).insert("external_settlement_effects"@, number_doc(0)),
            )
        }),
{
    law_rbf_conflict_keeps_what_it_was_told(trace, last);
}

/// A conflict is proved only after the client has refused it.
pub proof fn law_conflict_is_refused_by_the_client(
    trace: Seq<(RbfConflictRunView, ReplyView)>,
    last: int,
)
    requires
        is_rbf_conflict_trace(trace),
        0 <= last < trace.len(),
        trace[last].0.phase == RbfConflictPhase::Finished,
    ensures
        exists|i: int|
            0 <= i < last && (#[trigger] trace[i]).0.phase == RbfConflictPhase::ObserveConflict &&
                (trace[i].1 matches ReplyView::Refused { code, .. } && code ==
                "swp_rbf_policy_violation"@),
{
    let i = lemma_milestone(
        trace,
        |run: RbfConflictRunView, reply: ReplyView| rbf_conflict_step(run, reply),
        |run: RbfConflictRunView| run.phase.rank(),
        5,
        last,
    );
    assert(trace[i].0.phase == RbfConflictPhase::ObserveConflict);
    assert(rbf_conflict_step(trace[i].0, trace[i].1) == Ok::<RbfConflictRunView, Seq<char>>(trace[i
        + 1].0));
}

/// A conflict is proved only after it was found in the mempool.
pub proof fn law_conflict_stands_in_the_mempool(
    trace: Seq<(RbfConflictRunView, ReplyView)>,
    last: int,
)
    requires
        is_rbf_conflict_trace(trace),
        0 <= last < trace.len(),
        trace[last].0.phase == RbfConflictPhase::Finished,
    ensures
        exists|i: int|
            0 <= i < last && (#[trigger] trace[i]).0.phase == RbfConflictPhase::ReadMempool &&
                (trace[i].1 matches ReplyView::Document(Some(mempool)) && lists_text(mempool,
                trace[i].0.conflict_txid)),
{
    let i = lemma_milestone(
        trace,
        |run: RbfConflictRunView, reply: ReplyView| rbf_conflict_step(run, reply),
        |run: RbfConflictRunView| run.phase.rank(),
        3,
        last,
    );
    assert(trace[i].0.phase == RbfConflictPhase::ReadMempool);
    assert(rbf_conflict_step(trace[i].0, trace[i].1) == Ok::<RbfConflictRunView, Seq<char>>(trace[i
        + 1].0));
}

/// What a conflict before settlement comes to.
pub open spec fn rbf_conflict_result(run: RbfConflictRunView) -> JsonView {
    JsonView::Object(
        no_members().insert("order_id"@, text_doc(run.order_id)).insert(
            "payment_hash"@,
            text_doc(run.payment_hash),
        ).insert("committed_txid"@, text_doc(run.committed_txid)).insert(
            "conflict_txid"@,
            text_doc(run.conflict_txid),
        ).insert("input_txid"@, text_doc(run.input_txid)).insert(
            "input_vout"@,
            number_doc(run.input_output as u64),
        ).insert("expected_code"@, text_doc("swp_rbf_policy_violation"@)).insert(
            "outcome"@,
            text_doc("rejected_before_effect"@),
        ).insert("conflict_in_mempool"@, JsonView::Bool(true)).insert(
            "committed_broadcast_rejected"@,
            JsonView::Bool(true),
        ).insert("external_settlement_effects"@, number_doc(0)),
    )
}

impl RbfConflictRun {
    fn result_document(&self) -> (document: Json)
        ensures
            document@ == rbf_conflict_result(self@),
    {
        Json::object(
            JsonObject::new().with_text("order_id", self.order_id.as_str()).with_text(
                "payment_hash",
                self.payment_hash.as_str(),
            ).with_text("committed_txid", self.committed_txid.as_str()).with_text(
                "conflict_txid",
                self.conflict_txid.as_str(),
            ).with_text("input_txid", self.input_txid.as_str()).with_number(
                "input_vout",
                self.input_output as u64,
            ).with_text("expected_code", "swp_rbf_policy_violation").with_text(
                "outcome",
                "rejected_before_effect",
            ).with_bool("conflict_in_mempool", true).with_bool(
                "committed_broadcast_rejected",
                true,
            ).with_number("external_settlement_effects", 0),
        )
    }

    /// What a conflict before settlement comes to; nothing before it is over.
    pub fn result(&self) -> (document: Option<Json>)
        ensures
            match document {
                Some(document) => self@.phase == RbfConflictPhase::Finished && document@ == rbf_conflict_result(self@),
                None => self@.phase != RbfConflictPhase::Finished,
            },
    {
        if self.phase == RbfConflictPhase::Finished {
            Some(self.result_document())
        } else {
            None
        }
    }
}

/// The phases of a withdrawn acceptance, in their order.
#[derive(Clone, Copy, Debug, PartialEq, Eq, Structural)]
pub enum ZeroConfPhase {
    SayVerified,
    KeepReady,
    BroadcastFunding,
    RecordFunding,
    SayFunding,
    AwaitObserved,
    AwaitAccepted,
    BroadcastCompetitor,
    ReadParent,
    InvalidateBlock,
    AwaitAncestor,
    AwaitDowngrade,
    ReadRecords,
    ListInvoices,
    KeepDowngraded,
    Finished,
}

impl ZeroConfPhase {
    /// The place of the phase in their order.
    pub open spec fn rank(self) -> int {
        match self {
            ZeroConfPhase::SayVerified => 0,
            ZeroConfPhase::KeepReady => 1,
            ZeroConfPhase::BroadcastFunding => 2,
            ZeroConfPhase::RecordFunding => 3,
            ZeroConfPhase::SayFunding => 4,
            ZeroConfPhase::AwaitObserved => 5,
            ZeroConfPhase::AwaitAccepted => 6,
            ZeroConfPhase::BroadcastCompetitor => 7,
            ZeroConfPhase::ReadParent => 8,
            ZeroConfPhase::InvalidateBlock => 9,
            ZeroConfPhase::AwaitAncestor => 10,
            ZeroConfPhase::AwaitDowngrade => 11,
            ZeroConfPhase::ReadRecords => 12,
            ZeroConfPhase::ListInvoices => 13,
            ZeroConfPhase::KeepDowngraded => 14,
            ZeroConfPhase::Finished => 15,
        }
    }
}

/// A lock that the provider accepts without confirmations, and then no longer.
pub struct ZeroConfRun {
    pub phase: ZeroConfPhase,
    pub provider_pubkey: String,
    pub kinds: RecordKinds,
    pub injection: HarnessInjection,
    pub order_id: String,
    pub payment_hash: String,
    pub funding_txid: String,
    pub funding_hex: String,
    pub observed_id: String,
    pub accepted_id: String,
    pub attack_reference: String,
    pub downgraded_id: String,
}

/// A lock that the provider accepts without confirmations, and then no longer.
#[verifier::ext_equal]
pub struct ZeroConfRunView {
    pub phase: ZeroConfPhase,
    pub provider_pubkey: Seq<char>,
    pub kinds: RecordKinds,
    pub injection: HarnessInjection,
    pub order_id: Seq<char>,
    pub payment_hash: Seq<char>,
    pub funding_txid: Seq<char>,
    pub funding_hex: Seq<char>,
    pub observed_id: Seq<char>,
    pub accepted_id: Seq<char>,
    pub attack_reference: Seq<char>,
    pub downgraded_id: Seq<char>,
}

impl View for ZeroConfRun {
    type V = ZeroConfRunView;

    open spec fn view(&self) -> ZeroConfRunView {
        ZeroConfRunView {
            phase: self.phase,
            provider_pubkey: self.provider_pubkey@,
            kinds: self.kinds,
            injection: self.injection,
            order_id: self.order_id@,
            payment_hash: self.payment_hash@,
            funding_txid: self.funding_txid@,
            funding_hex: self.funding_hex@,
            observed_id: self.observed_id@,
            accepted_id: self.accepted_id@,
            attack_reference: self.attack_reference@,
            downgraded_id: self.downgraded_id@,
        }
    }
}

/// What a withdrawn acceptance asks for next.
pub open spec fn zero_conf_action(run: ZeroConfRunView) -> ActionView {
    match run.phase {
        ZeroConfPhase::SayVerified => ActionView::Say(
            "requester_verification_passed"@,
            no_members(),
        ),
        ZeroConfPhase::KeepReady => ActionView::Keep(
            "funding_execution_ready"@,
            effect_doc(run.funding_txid),
        ),
        ZeroConfPhase::BroadcastFunding => ActionView::Perform(
            Task::BroadcastBitcoin,
            seq!["zero-conf-funding"@, run.funding_hex, run.funding_txid],
        ),
        ZeroConfPhase::RecordFunding => ActionView::Perform(
            Task::RecordFundingEffect,
            seq![run.funding_txid, run.funding_hex, "text"@],
        ),
        ZeroConfPhase::SayFunding => ActionView::Say(
            "requester_funding_broadcast"@,
            no_members().insert("transaction_id"@, text_doc(run.funding_txid)).insert(
                "output_index"@,
                number_doc(0),
            ),
        ),
        ZeroConfPhase::AwaitObserved => ActionView::AwaitState("funding_observed"@),
        ZeroConfPhase::AwaitAccepted => ActionView::AwaitState("funding_zero_conf_accepted"@),
        ZeroConfPhase::BroadcastCompetitor => ActionView::Perform(
            Task::BroadcastCompetitor,
            seq!["zero-conf-competitor"@, signals_text(run.injection)],
        ),
        ZeroConfPhase::ReadParent => ActionView::Perform(
            Task::ReadParent,
            seq!["zero-conf-parent"@],
        ),
        ZeroConfPhase::InvalidateBlock => ActionView::Perform(
            Task::InvalidateBlock,
            seq!["zero-conf-invalidate-parent"@, run.attack_reference],
        ),
        ZeroConfPhase::AwaitAncestor => ActionView::Perform(
            Task::AwaitAncestor,
            seq![run.funding_txid],
        ),
        ZeroConfPhase::AwaitDowngrade => ActionView::AwaitState("funding_confirmation_required"@),
        ZeroConfPhase::ReadRecords => ActionView::Perform(Task::ReadRecords, seq![]),
        ZeroConfPhase::ListInvoices => ActionView::Perform(
            Task::ListInvoices,
            seq!["zero-conf-invoice-state"@],
        ),
        ZeroConfPhase::KeepDowngraded => ActionView::Keep(
            "zero_conf_downgraded"@,
            JsonView::Object(
                no_members().insert("external_identifier"@, text_doc(run.funding_txid)).insert(
                    "reason"@,
                    text_doc(reason_text(run.injection)),
                ),
            ),
        ),
        ZeroConfPhase::Finished => ActionView::Finish,
    }
}

/// Where a reply takes a withdrawn acceptance.
pub open spec fn zero_conf_step(run: ZeroConfRunView, reply: ReplyView) -> Result<
    ZeroConfRunView,
    Seq<char>,
> {
    match (run.phase, reply) {
        (ZeroConfPhase::SayVerified, ReplyView::Record { .. }) => Ok(
            ZeroConfRunView { phase: ZeroConfPhase::KeepReady, ..run },
        ),
        (ZeroConfPhase::KeepReady, ReplyView::Done) => Ok(
            ZeroConfRunView { phase: ZeroConfPhase::BroadcastFunding, ..run },
        ),
        (ZeroConfPhase::BroadcastFunding, ReplyView::Done) => Ok(
            ZeroConfRunView { phase: ZeroConfPhase::RecordFunding, ..run },
        ),
        (ZeroConfPhase::RecordFunding, ReplyView::Done) => Ok(
            ZeroConfRunView { phase: ZeroConfPhase::SayFunding, ..run },
        ),
        (ZeroConfPhase::SayFunding, ReplyView::Record { .. }) => Ok(
            ZeroConfRunView { phase: ZeroConfPhase::AwaitObserved, ..run },
        ),
        (ZeroConfPhase::AwaitObserved, ReplyView::Record { id, pubkey, tags, content, .. }) => Ok(
            ZeroConfRunView { phase: ZeroConfPhase::AwaitAccepted, observed_id: id, ..run },
        ),
        (ZeroConfPhase::AwaitAccepted, ReplyView::Record { id, pubkey, tags, content, .. }) => match decision_reading(
            content,
            "zero-conf accepted Status has no decision proof"@,
        ) {
            Err(message) => Err(message),
            Ok(decision) => {
                if !accepts_locally(decision, run.funding_txid) {
                    Err("zero-conf accepted Status does not bind the local funding view"@)
                } else if downgrade_reason(run.injection) is None {
                    Err("selected injection is not a zero-conf downgrade"@)
                } else if run.injection == HarnessInjection::ZeroConfAncestorEviction {
                    Ok(
                        ZeroConfRunView {
                            phase: ZeroConfPhase::ReadParent,
                            accepted_id: id,
                            ..run
                        },
                    )
                } else {
                    Ok(
                        ZeroConfRunView {
                            phase: ZeroConfPhase::BroadcastCompetitor,
                            accepted_id: id,
                            ..run
                        },
                    )
                }
            },
        },
        (ZeroConfPhase::BroadcastCompetitor, ReplyView::Texts(texts)) => {
            if texts.len() != 2 {
                Err(wrong_reply())
            } else if texts[1] != texts[0] {
                Err("bitcoind returned another zero-conf competitor ID"@)
            } else {
                Ok(
                    ZeroConfRunView {
                        phase: ZeroConfPhase::AwaitDowngrade,
                        attack_reference: texts[0],
                        ..run
                    },
                )
            }
        },
        (ZeroConfPhase::BroadcastCompetitor, ReplyView::Refused { code, message }) => Err(
            "could not broadcast zero-conf competitor: "@ + message,
        ),
        (ZeroConfPhase::ReadParent, ReplyView::Document(Some(parent))) => match member_text(
            parent,
            "blockhash"@,
        ) {
            None => Err("zero-conf parent has no confirmation block"@),
            Some(block) => Ok(
                ZeroConfRunView {
                    phase: ZeroConfPhase::InvalidateBlock,
                    attack_reference: block,
                    ..run
                },
            ),
        },
        (ZeroConfPhase::InvalidateBlock, ReplyView::Done) => Ok(
            ZeroConfRunView { phase: ZeroConfPhase::AwaitAncestor, ..run },
        ),
        (ZeroConfPhase::AwaitAncestor, ReplyView::Done) => Ok(
            ZeroConfRunView { phase: ZeroConfPhase::AwaitDowngrade, ..run },
        ),
        (ZeroConfPhase::AwaitDowngrade, ReplyView::Record { id, pubkey, tags, content, .. }) => match decision_reading(
            content,
            "zero-conf downgraded Status has no decision proof"@,
        ) {
            Err(message) => Err(message),
            Ok(decision) => match downgrade_reading(
                decision,
                run.injection,
                run.funding_txid,
                run.attack_reference,
            ) {
                Err(message) => Err(message),
                Ok(checked) => Ok(
                    ZeroConfRunView { phase: ZeroConfPhase::ReadRecords, downgraded_id: id, ..run },
                ),
            },
        },
        (ZeroConfPhase::ReadRecords, ReplyView::Records(records)) => {
            if provider_paid(records, run.kinds, run.provider_pubkey) {
                Err("provider advanced to a Lightning effect after zero-conf risk"@)
            } else {
                Ok(ZeroConfRunView { phase: ZeroConfPhase::ListInvoices, ..run })
            }
        },
        (ZeroConfPhase::ListInvoices, ReplyView::Document(Some(listing))) => match unpaid_reading(
            listing,
            run.payment_hash,
        ) {
            Err(message) => Err(message),
            Ok(checked) => Ok(ZeroConfRunView { phase: ZeroConfPhase::KeepDowngraded, ..run }),
        },
        (ZeroConfPhase::KeepDowngraded, ReplyView::Done) => Ok(
            ZeroConfRunView { phase: ZeroConfPhase::Finished, ..run },
        ),
        _ => Err(wrong_reply()),
    }
}

impl ZeroConfRun {
    /// A withdrawn acceptance before its first action.
    pub fn new(
        provider_pubkey: &str,
        kinds: RecordKinds,
        injection: HarnessInjection,
        order_id: &str,
        payment_hash: &str,
        funding_txid: &str,
        funding_hex: &str,
    ) -> (run: ZeroConfRun)
        ensures
            run@.phase == ZeroConfPhase::SayVerified,
            run@.provider_pubkey == provider_pubkey@,
            run@.kinds == kinds,
            run@.injection == injection,
            run@.order_id == order_id@,
            run@.payment_hash == payment_hash@,
            run@.funding_txid == funding_txid@,
            run@.funding_hex == funding_hex@,
            run@.observed_id == Seq::<char>::empty(),
            run@.accepted_id == Seq::<char>::empty(),
            run@.attack_reference == Seq::<char>::empty(),
            run@.downgraded_id == Seq::<char>::empty(),
    {
        ZeroConfRun {
            phase: ZeroConfPhase::SayVerified,
            provider_pubkey: provider_pubkey.to_owned(),
            kinds,
            injection,
            order_id: order_id.to_owned(),
            payment_hash: payment_hash.to_owned(),
            funding_txid: funding_txid.to_owned(),
            funding_hex: funding_hex.to_owned(),
            observed_id: String::new(),
            accepted_id: String::new(),
            attack_reference: String::new(),
            downgraded_id: String::new(),
        }
    }

    /// What the journey asks for next.
    pub fn action(&self) -> (action: Action)
        ensures
            action@ == zero_conf_action(self@),
    {
        match self.phase {
            ZeroConfPhase::SayVerified => Action::Say(
                "requester_verification_passed",
                JsonObject::new(),
            ),
            ZeroConfPhase::KeepReady => Action::Keep(
                "funding_execution_ready",
                effect_details(self.funding_txid.as_str()),
            ),
            ZeroConfPhase::BroadcastFunding => perform_with_three(
                Task::BroadcastBitcoin,
                "zero-conf-funding",
                self.funding_hex.as_str(),
                self.funding_txid.as_str(),
            ),
            ZeroConfPhase::RecordFunding => perform_with_three(
                Task::RecordFundingEffect,
                self.funding_txid.as_str(),
                self.funding_hex.as_str(),
                "text",
            ),
            ZeroConfPhase::SayFunding => Action::Say(
                "requester_funding_broadcast",
                JsonObject::new().with_text(
                    "transaction_id",
                    self.funding_txid.as_str(),
                ).with_number("output_index", 0),
            ),
            ZeroConfPhase::AwaitObserved => Action::AwaitState("funding_observed"),
            ZeroConfPhase::AwaitAccepted => Action::AwaitState("funding_zero_conf_accepted"),
            ZeroConfPhase::BroadcastCompetitor => perform_with_two(
                Task::BroadcastCompetitor,
                "zero-conf-competitor",
                self.signals(),
            ),
            ZeroConfPhase::ReadParent => perform_with(Task::ReadParent, "zero-conf-parent"),
            ZeroConfPhase::InvalidateBlock => perform_with_two(
                Task::InvalidateBlock,
                "zero-conf-invalidate-parent",
                self.attack_reference.as_str(),
            ),
            ZeroConfPhase::AwaitAncestor => perform_with(
                Task::AwaitAncestor,
                self.funding_txid.as_str(),
            ),
            ZeroConfPhase::AwaitDowngrade => Action::AwaitState("funding_confirmation_required"),
            ZeroConfPhase::ReadRecords => perform(Task::ReadRecords),
            ZeroConfPhase::ListInvoices => perform_with(
                Task::ListInvoices,
                "zero-conf-invoice-state",
            ),
            ZeroConfPhase::KeepDowngraded => Action::Keep(
                "zero_conf_downgraded",
                Json::object(
                    JsonObject::new().with_text(
                        "external_identifier",
                        self.funding_txid.as_str(),
                    ).with("reason", Json::text(self.reason_or_empty())),
                ),
            ),
            ZeroConfPhase::Finished => Action::Finish,
        }
    }

    /// Takes a reply: the journey goes on to its next phase, or ends with a message.
    #[verifier::rlimit(60)]
    pub fn advance(&mut self, reply: Reply) -> (moved: Result<(), String>)
        ensures
            match moved {
                Ok(_) => zero_conf_step(old(self)@, reply@) == Ok::<ZeroConfRunView, Seq<char>>(
                    final(self)@,
                ),
                Err(message) => {
                    &&& zero_conf_step(old(self)@, reply@) == Err::<ZeroConfRunView, Seq<char>>(
                        message@,
                    )
                    &&& final(self)@ == old(self)@
                },
            },
    {
        match (self.phase, reply) {
            (ZeroConfPhase::SayVerified, Reply::Record(_)) => {
                self.phase = ZeroConfPhase::KeepReady;
                Ok(())
            },
            (ZeroConfPhase::KeepReady, Reply::Done) => {
                self.phase = ZeroConfPhase::BroadcastFunding;
                Ok(())
            },
            (ZeroConfPhase::BroadcastFunding, Reply::Done) => {
                self.phase = ZeroConfPhase::RecordFunding;
                Ok(())
            },
            (ZeroConfPhase::RecordFunding, Reply::Done) => {
                self.phase = ZeroConfPhase::SayFunding;
                Ok(())
            },
            (ZeroConfPhase::SayFunding, Reply::Record(_)) => {
                self.phase = ZeroConfPhase::AwaitObserved;
                Ok(())
            },
            (ZeroConfPhase::AwaitObserved, Reply::Record(event)) => {
                self.observed_id = event.id;
                self.phase = ZeroConfPhase::AwaitAccepted;
                Ok(())
            },
            (ZeroConfPhase::AwaitAccepted, Reply::Record(event)) => {
                let decision: JsonObject = zero_conf_decision(
                    &event,
                    "zero-conf accepted Status has no decision proof",
                )?;
                if !decision_accepts(&decision, self.funding_txid.as_str()) {
                    return Err(
                        "zero-conf accepted Status does not bind the local funding view".to_owned(),
                    );
                }
                if self.reason().is_none() {
                    return Err("selected injection is not a zero-conf downgrade".to_owned());
                }
                self.accepted_id = event.id;
                self.phase = if self.injection == HarnessInjection::ZeroConfAncestorEviction {
                    ZeroConfPhase::ReadParent
                } else {
                    ZeroConfPhase::BroadcastCompetitor
                };
                Ok(())
            },
            (ZeroConfPhase::BroadcastCompetitor, Reply::Texts(texts)) => {
                if texts.len() != 2 {
                    return Err(wrong_reply_text());
                }
                if !same_text(texts[1].as_str(), texts[0].as_str()) {
                    return Err("bitcoind returned another zero-conf competitor ID".to_owned());
                }
                self.attack_reference = texts[0].clone();
                self.phase = ZeroConfPhase::AwaitDowngrade;
                Ok(())
            },
            (ZeroConfPhase::BroadcastCompetitor, Reply::Refused { code: _, message }) => {
                Err(join("could not broadcast zero-conf competitor: ", message.as_str()))
            },
            (ZeroConfPhase::ReadParent, Reply::Document(Some(parent))) => {
                let block: String = match parent.text_at("blockhash") {
                    Some(block) => block.to_owned(),
                    None => {
                        return Err("zero-conf parent has no confirmation block".to_owned());
                    },
                };
                self.attack_reference = block;
                self.phase = ZeroConfPhase::InvalidateBlock;
                Ok(())
            },
            (ZeroConfPhase::InvalidateBlock, Reply::Done) => {
                self.phase = ZeroConfPhase::AwaitAncestor;
                Ok(())
            },
            (ZeroConfPhase::AwaitAncestor, Reply::Done) => {
                self.phase = ZeroConfPhase::AwaitDowngrade;
                Ok(())
            },
            (ZeroConfPhase::AwaitDowngrade, Reply::Record(event)) => {
                let decision: JsonObject = zero_conf_decision(
                    &event,
                    "zero-conf downgraded Status has no decision proof",
                )?;
                let checked: () = self.check_downgrade(&decision)?;
                self.downgraded_id = event.id;
                self.phase = ZeroConfPhase::ReadRecords;
                Ok(())
            },
            (ZeroConfPhase::ReadRecords, Reply::Records(records)) => {
                if some_payment(&records, self.kinds, self.provider_pubkey.as_str()) {
                    return Err(
                        "provider advanced to a Lightning effect after zero-conf risk".to_owned(),
                    );
                }
                self.phase = ZeroConfPhase::ListInvoices;
                Ok(())
            },
            (ZeroConfPhase::ListInvoices, Reply::Document(Some(listing))) => {
                let checked: () = check_unpaid(&listing, self.payment_hash.as_str())?;
                self.phase = ZeroConfPhase::KeepDowngraded;
                Ok(())
            },
            (ZeroConfPhase::KeepDowngraded, Reply::Done) => {
                self.phase = ZeroConfPhase::Finished;
                Ok(())
            },
            _ => Err(wrong_reply_text()),
        }
    }
}

/// Whether each entry of a trace leads to the one after it, from the first phase on.
pub open spec fn is_zero_conf_trace(trace: Seq<(ZeroConfRunView, ReplyView)>) -> bool {
    &&& trace.len() > 0
    &&& trace[0].0.phase == ZeroConfPhase::SayVerified
    &&& forall|i: int|
        0 <= i < trace.len() - 1 ==> zero_conf_step((#[trigger] trace[i]).0, trace[i].1) == Ok::<
            ZeroConfRunView,
            Seq<char>,
        >(trace[i + 1].0)
}

/// Each reply takes a withdrawn acceptance forward, never back and never in place.
pub proof fn law_zero_conf_moves_forward(run: ZeroConfRunView, reply: ReplyView)
    requires
        zero_conf_step(run, reply) is Ok,
    ensures
        run.phase.rank() < zero_conf_step(run, reply)->Ok_0.phase.rank(),
{
}

/// Which replies take a withdrawn acceptance on, and to which phase: in each phase exactly the
/// replies that pass every check of that phase, and no others.
pub proof fn law_zero_conf_goes_on_only_when_answered(run: ZeroConfRunView, reply: ReplyView)
    ensures
        ({
            let next = zero_conf_step(run, reply);
            match run.phase {
                ZeroConfPhase::SayVerified => {
                    &&& next is Ok <==> reply is Record
                    &&& next is Ok ==> next->Ok_0.phase == ZeroConfPhase::KeepReady
                },
                ZeroConfPhase::KeepReady => {
                    &&& next is Ok <==> reply is Done
                    &&& next is Ok ==> next->Ok_0.phase == ZeroConfPhase::BroadcastFunding
                },
                ZeroConfPhase::BroadcastFunding => {
                    &&& next is Ok <==> reply is Done
                    &&& next is Ok ==> next->Ok_0.phase == ZeroConfPhase::RecordFunding
                },
                ZeroConfPhase::RecordFunding => {
                    &&& next is Ok <==> reply is Done
                    &&& next is Ok ==> next->Ok_0.phase == ZeroConfPhase::SayFunding
                },
                ZeroConfPhase::SayFunding => {
                    &&& next is Ok <==> reply is Record
                    &&& next is Ok ==> next->Ok_0.phase == ZeroConfPhase::AwaitObserved
                },
                ZeroConfPhase::AwaitObserved => {
                    &&& next is Ok <==> reply is Record
                    &&& next is Ok ==> next->Ok_0.phase == ZeroConfPhase::AwaitAccepted
                },
                ZeroConfPhase::AwaitAccepted => {
                    let case_1 = run.injection == HarnessInjection::ZeroConfAncestorEviction;
                    let case_2 = run.injection != HarnessInjection::ZeroConfAncestorEviction;
                    &&& next is Ok <==> {
                        &&& reply is Record
                        &&& decision_reading(
                            reply->Record_content,
                            "zero-conf accepted Status has no decision proof"@,
                        ) is Ok
                        &&& accepts_locally(
                            decision_reading(
                                reply->Record_content,
                                "zero-conf accepted Status has no decision proof"@,
                            )->Ok_0,
                            run.funding_txid,
                        )
                        &&& downgrade_reason(run.injection) is Some
                        &&& (case_1 || case_2)
                    }
                    &&& next is Ok && case_1 ==> next->Ok_0.phase == ZeroConfPhase::ReadParent
                    &&& next is Ok && case_2 ==> next->Ok_0.phase == ZeroConfPhase::BroadcastCompetitor
                },
                ZeroConfPhase::BroadcastCompetitor => {
                    &&& next is Ok <==> {
                        &&& reply is Texts
                        &&& reply->Texts_0.len() == 2
                        &&& reply->Texts_0[1] == reply->Texts_0[0]
                    }
                    &&& next is Ok ==> next->Ok_0.phase == ZeroConfPhase::AwaitDowngrade
                },
                ZeroConfPhase::ReadParent => {
                    &&& next is Ok <==> {
                        &&& reply is Document
                        &&& reply->Document_0 is Some
                        &&& member_text(reply->Document_0->0, "blockhash"@) is Some
                    }
                    &&& next is Ok ==> next->Ok_0.phase == ZeroConfPhase::InvalidateBlock
                },
                ZeroConfPhase::InvalidateBlock => {
                    &&& next is Ok <==> reply is Done
                    &&& next is Ok ==> next->Ok_0.phase == ZeroConfPhase::AwaitAncestor
                },
                ZeroConfPhase::AwaitAncestor => {
                    &&& next is Ok <==> reply is Done
                    &&& next is Ok ==> next->Ok_0.phase == ZeroConfPhase::AwaitDowngrade
                },
                ZeroConfPhase::AwaitDowngrade => {
                    &&& next is Ok <==> {
                        &&& reply is Record
                        &&& decision_reading(
                            reply->Record_content,
                            "zero-conf downgraded Status has no decision proof"@,
                        ) is Ok
                        &&& downgrade_reading(
                            decision_reading(
                                reply->Record_content,
                                "zero-conf downgraded Status has no decision proof"@,
                            )->Ok_0,
                            run.injection,
                            run.funding_txid,
                            run.attack_reference,
                        ) is Ok
                    }
                    &&& next is Ok ==> next->Ok_0.phase == ZeroConfPhase::ReadRecords
                },
                ZeroConfPhase::ReadRecords => {
                    &&& next is Ok <==> {
                        &&& reply is Records
                        &&& !(provider_paid(reply->Records_0, run.kinds, run.provider_pubkey))
                    }
                    &&& next is Ok ==> next->Ok_0.phase == ZeroConfPhase::ListInvoices
                },
                ZeroConfPhase::ListInvoices => {
                    &&& next is Ok <==> {
                        &&& reply is Document
                        &&& reply->Document_0 is Some
                        &&& unpaid_reading(reply->Document_0->0, run.payment_hash) is Ok
                    }
                    &&& next is Ok ==> next->Ok_0.phase == ZeroConfPhase::KeepDowngraded
                },
                ZeroConfPhase::KeepDowngraded => {
                    &&& next is Ok <==> reply is Done
                    &&& next is Ok ==> next->Ok_0.phase == ZeroConfPhase::Finished
                },
                ZeroConfPhase::Finished => next is Err,
            }
        }),
{
}

/// The reply that a trace of a withdrawn acceptance holds for a phase.
pub open spec fn zero_conf_told(
    trace: Seq<(ZeroConfRunView, ReplyView)>,
    phase: ZeroConfPhase,
) -> ReplyView {
    trace[choose|i: int| 0 <= i < trace.len() && (#[trigger] trace[i]).0.phase == phase].1
}

/// The values that a run of a withdrawn acceptance holds, by the replies that gave them: each stays
/// as the reply to one phase gave it, or as the run started with it.
pub open spec fn zero_conf_holds(
    trace: Seq<(ZeroConfRunView, ReplyView)>,
    run: ZeroConfRunView,
) -> bool {
    let start = trace[0].0;
    let observed_id = zero_conf_told(trace, ZeroConfPhase::AwaitObserved)->Record_id;
    let accepted_id = zero_conf_told(trace, ZeroConfPhase::AwaitAccepted)->Record_id;
    let attack_reference = if start.injection == HarnessInjection::ZeroConfAncestorEviction {
        member_text(
            zero_conf_told(trace, ZeroConfPhase::ReadParent)->Document_0->0,
            "blockhash"@,
        )->0
    } else { zero_conf_told(trace, ZeroConfPhase::BroadcastCompetitor)->Texts_0[0] };
    let downgraded_id = zero_conf_told(trace, ZeroConfPhase::AwaitDowngrade)->Record_id;
    &&& run.provider_pubkey == start.provider_pubkey
    &&& run.kinds == start.kinds
    &&& run.injection == start.injection
    &&& run.order_id == start.order_id
    &&& run.payment_hash == start.payment_hash
    &&& run.funding_txid == start.funding_txid
    &&& run.funding_hex == start.funding_hex
    &&& run.phase.rank() > ZeroConfPhase::AwaitObserved.rank() ==> run.observed_id == observed_id
    &&& run.phase.rank() > ZeroConfPhase::AwaitAccepted.rank() ==> run.accepted_id == accepted_id
    &&& run.phase.rank() > ZeroConfPhase::ReadParent.rank()
        ==> run.attack_reference == attack_reference
    &&& run.phase.rank() > ZeroConfPhase::AwaitDowngrade.rank()
        ==> run.downgraded_id == downgraded_id
    &&& run.phase == ZeroConfPhase::BroadcastCompetitor
        ==> start.injection != HarnessInjection::ZeroConfAncestorEviction
    &&& run.phase == ZeroConfPhase::ReadParent
        ==> start.injection == HarnessInjection::ZeroConfAncestorEviction
}

/// No phase of a withdrawn acceptance comes twice in a trace.
proof fn lemma_zero_conf_told_once(trace: Seq<(ZeroConfRunView, ReplyView)>, place: int)
    requires
        is_zero_conf_trace(trace),
        0 <= place < trace.len(),
    ensures
        zero_conf_told(trace, trace[place].0.phase) == trace[place].1,
{
    let phase = trace[place].0.phase;
    let other = choose|i: int| 0 <= i < trace.len() && (#[trigger] trace[i]).0.phase == phase;
    assert(trace[place].0.phase == phase);
    if other != place {
        let (early, late) = if other < place {
            (other, place)
        } else {
            (place, other)
        };
        assert forall|run: ZeroConfRunView, reply: ReplyView|
            (#[trigger] zero_conf_step(run, reply)) is Ok implies run.phase.rank() < zero_conf_step(
            run,
            reply,
        )->Ok_0.phase.rank() by {
            law_zero_conf_moves_forward(run, reply);
        }
        lemma_ranks_rise(
            trace,
            |run: ZeroConfRunView, reply: ReplyView| zero_conf_step(run, reply),
            |run: ZeroConfRunView| run.phase.rank(),
            early,
            late,
        );
    }
}

/// A reply keeps what a withdrawn acceptance holds, and adds what it tells.
proof fn lemma_zero_conf_holds_on(
    trace: Seq<(ZeroConfRunView, ReplyView)>,
    run: ZeroConfRunView,
    reply: ReplyView,
)
    requires
        zero_conf_holds(trace, run),
        zero_conf_told(trace, run.phase) == reply,
        zero_conf_step(run, reply) is Ok,
    ensures
        zero_conf_holds(trace, zero_conf_step(run, reply)->Ok_0),
{
    let next = zero_conf_step(run, reply)->Ok_0;
    match run.phase {
        ZeroConfPhase::SayVerified => assert(zero_conf_holds(trace, next)),
        ZeroConfPhase::KeepReady => assert(zero_conf_holds(trace, next)),
        ZeroConfPhase::BroadcastFunding => assert(zero_conf_holds(trace, next)),
        ZeroConfPhase::RecordFunding => assert(zero_conf_holds(trace, next)),
        ZeroConfPhase::SayFunding => assert(zero_conf_holds(trace, next)),
        ZeroConfPhase::AwaitObserved => assert(zero_conf_holds(trace, next)),
        ZeroConfPhase::AwaitAccepted => assert(zero_conf_holds(trace, next)),
        ZeroConfPhase::BroadcastCompetitor => assert(zero_conf_holds(trace, next)),
        ZeroConfPhase::ReadParent => assert(zero_conf_holds(trace, next)),
        ZeroConfPhase::InvalidateBlock => assert(zero_conf_holds(trace, next)),
        ZeroConfPhase::AwaitAncestor => assert(zero_conf_holds(trace, next)),
        ZeroConfPhase::AwaitDowngrade => assert(zero_conf_holds(trace, next)),
        ZeroConfPhase::ReadRecords => assert(zero_conf_holds(trace, next)),
        ZeroConfPhase::ListInvoices => assert(zero_conf_holds(trace, next)),
        ZeroConfPhase::KeepDowngraded => assert(zero_conf_holds(trace, next)),
        ZeroConfPhase::Finished => assert(zero_conf_holds(trace, next)),
    }
}

/// What a withdrawn acceptance has been told, it keeps: at every place of a trace each value that
/// the run holds is the one that the reply to the phase that asks for it gave, or the one that the
/// run started with.
pub proof fn law_zero_conf_keeps_what_it_was_told(
    trace: Seq<(ZeroConfRunView, ReplyView)>,
    last: int,
)
    requires
        is_zero_conf_trace(trace),
        0 <= last < trace.len(),
    ensures
        zero_conf_holds(trace, trace[last].0),
    decreases last,
{
    if last > 0 {
        let before = last - 1;
        law_zero_conf_keeps_what_it_was_told(trace, before);
        lemma_zero_conf_told_once(trace, before);
        assert(zero_conf_step(trace[before].0, trace[before].1) == Ok::<ZeroConfRunView, Seq<char>>(
            trace[before + 1].0,
        ));
        lemma_zero_conf_holds_on(trace, trace[before].0, trace[before].1);
    }
}

/// What a withdrawn acceptance asks for in each phase, in terms of the replies before it: the
/// values in a request are those that the replies to the named phases gave, or those that the run
/// started with.
pub proof fn law_zero_conf_asks_with_what_it_was_told(
    trace: Seq<(ZeroConfRunView, ReplyView)>,
    last: int,
)
    requires
        is_zero_conf_trace(trace),
        0 <= last < trace.len(),
    ensures
        ({
            let start = trace[0].0;
            let attack_reference = if start.injection == HarnessInjection::ZeroConfAncestorEviction {
                member_text(
                    zero_conf_told(trace, ZeroConfPhase::ReadParent)->Document_0->0,
                    "blockhash"@,
                )->0
            } else { zero_conf_told(trace, ZeroConfPhase::BroadcastCompetitor)->Texts_0[0] };
            let action = zero_conf_action(trace[last].0);
            match trace[last].0.phase {
                ZeroConfPhase::SayVerified => action == ActionView::Say(
                    "requester_verification_passed"@,
                    no_members(),
                ),
                ZeroConfPhase::KeepReady => action == ActionView::Keep(
                    "funding_execution_ready"@,
                    effect_doc(start.funding_txid),
                ),
                ZeroConfPhase::BroadcastFunding => action == ActionView::Perform(
                    Task::BroadcastBitcoin,
                    seq!["zero-conf-funding"@, start.funding_hex, start.funding_txid],
                ),
                ZeroConfPhase::RecordFunding => action == ActionView::Perform(
                    Task::RecordFundingEffect,
                    seq![start.funding_txid, start.funding_hex, "text"@],
                ),
                ZeroConfPhase::SayFunding => action == ActionView::Say(
                    "requester_funding_broadcast"@,
                    no_members().insert(
                        "transaction_id"@,
                        text_doc(start.funding_txid),
                    ).insert("output_index"@, number_doc(0)),
                ),
                ZeroConfPhase::AwaitObserved => action == ActionView::AwaitState(
                    "funding_observed"@,
                ),
                ZeroConfPhase::AwaitAccepted => action == ActionView::AwaitState(
                    "funding_zero_conf_accepted"@,
                ),
                ZeroConfPhase::BroadcastCompetitor => action == ActionView::Perform(
                    Task::BroadcastCompetitor,
                    seq!["zero-conf-competitor"@, signals_text(start.injection)],
                ),
                ZeroConfPhase::ReadParent => action == ActionView::Perform(
                    Task::ReadParent,
                    seq!["zero-conf-parent"@],
                ),
                ZeroConfPhase::InvalidateBlock => action == ActionView::Perform(
                    Task::InvalidateBlock,
                    seq!["zero-conf-invalidate-parent"@, attack_reference],
                ),
                ZeroConfPhase::AwaitAncestor => action == ActionView::Perform(
                    Task::AwaitAncestor,
                    seq![start.funding_txid],
                ),
                ZeroConfPhase::AwaitDowngrade => action == ActionView::AwaitState(
                    "funding_confirmation_required"@,
                ),
                ZeroConfPhase::ReadRecords => action == ActionView::Perform(
                    Task::ReadRecords,
                    seq![],
                ),
                ZeroConfPhase::ListInvoices => action == ActionView::Perform(
                    Task::ListInvoices,
                    seq!["zero-conf-invoice-state"@],
                ),
                ZeroConfPhase::KeepDowngraded => action == ActionView::Keep(
                    "zero_conf_downgraded"@,
                    JsonView::Object(
                        no_members().insert(
                            "external_identifier"@,
                            text_doc(start.funding_txid),
                        ).insert("reason"@, text_doc(reason_text(start.injection))),
                    ),
                ),
                ZeroConfPhase::Finished => action == ActionView::Finish,
            }
        }),
{
    law_zero_conf_keeps_what_it_was_told(trace, last);
}

/// What a withdrawn acceptance reports at its end is what it was told on the way: each identifier
/// in the report is the one that the reply to the named phase gave, or one that the run started
/// with.
pub proof fn law_zero_conf_result_names_what_it_was_told(
    trace: Seq<(ZeroConfRunView, ReplyView)>,
    last: int,
)
    requires
        is_zero_conf_trace(trace),
        0 <= last < trace.len(),
        trace[last].0.phase == ZeroConfPhase::Finished,
    ensures
        ({
            let start = trace[0].0;
            let observed_id = zero_conf_told(trace, ZeroConfPhase::AwaitObserved)->Record_id;
            let accepted_id = zero_conf_told(trace, ZeroConfPhase::AwaitAccepted)->Record_id;
            let attack_reference = if start.injection == HarnessInjection::ZeroConfAncestorEviction {
                member_text(
                    zero_conf_told(trace, ZeroConfPhase::ReadParent)->Document_0->0,
                    "blockhash"@,
                )->0
            } else { zero_conf_told(trace, ZeroConfPhase::BroadcastCompetitor)->Texts_0[0] };
            let downgraded_id = zero_conf_told(trace, ZeroConfPhase::AwaitDowngrade)->Record_id;
            zero_conf_result(trace[last].0) == JsonView::Object(
                no_members().insert("order_id"@, text_doc(start.order_id)).insert("payment_hash"@, text_doc(start.payment_hash)).insert("funding_txid"@, text_doc(start.funding_txid)).insert("funding_observed_status_id"@, text_doc(observed_id)).insert("zero_conf_accepted_status_id"@, text_doc(accepted_id)).insert("confirmation_required_status_id"@, text_doc(downgraded_id)).insert("injection"@, text_doc(start.injection.label())).insert("attack_reference"@, text_doc(attack_reference)).insert("accepted_decision"@, text_doc("accepted"@)).insert("downgraded_decision"@, text_doc("confirmation_required"@)).insert("reason"@, text_doc(reason_text(start.injection))).insert("invoice_state"@, text_doc("unpaid"@)).insert("provider_settlement_effects"@, number_doc(0)).insert(
                    "outcome"@,
                    text_doc("confirmation_required_without_effect"@),
                ),
            )
        }),
{
    law_zero_conf_keeps_what_it_was_told(trace, last);
}

/// An acceptance is kept as withdrawn only after the records showed no payment.
pub proof fn law_acceptance_is_withdrawn_before_payment(
    trace: Seq<(ZeroConfRunView, ReplyView)>,
    last: int,
)
    requires
        is_zero_conf_trace(trace),
        0 <= last < trace.len(),
        trace[last].0.phase == ZeroConfPhase::KeepDowngraded,
    ensures
        exists|i: int|
            0 <= i < last && (#[trigger] trace[i]).0.phase == ZeroConfPhase::ReadRecords &&
                (trace[i].1 matches ReplyView::Records(records) && !provider_paid(records,
                trace[i].0.kinds, trace[i].0.provider_pubkey)),
{
    let i = lemma_milestone(
        trace,
        |run: ZeroConfRunView, reply: ReplyView| zero_conf_step(run, reply),
        |run: ZeroConfRunView| run.phase.rank(),
        12,
        last,
    );
    assert(trace[i].0.phase == ZeroConfPhase::ReadRecords);
    assert(zero_conf_step(trace[i].0, trace[i].1) == Ok::<ZeroConfRunView, Seq<char>>(trace[i +
        1].0));
}

/// An acceptance is kept as withdrawn only after the invoice was found unpaid.
pub proof fn law_acceptance_is_withdrawn_unpaid(trace: Seq<(ZeroConfRunView, ReplyView)>, last: int)
    requires
        is_zero_conf_trace(trace),
        0 <= last < trace.len(),
        trace[last].0.phase == ZeroConfPhase::KeepDowngraded,
    ensures
        exists|i: int|
            0 <= i < last && (#[trigger] trace[i]).0.phase == ZeroConfPhase::ListInvoices &&
                (trace[i].1 matches ReplyView::Document(Some(listing)) && unpaid_reading(listing,
                trace[i].0.payment_hash) is Ok),
{
    let i = lemma_milestone(
        trace,
        |run: ZeroConfRunView, reply: ReplyView| zero_conf_step(run, reply),
        |run: ZeroConfRunView| run.phase.rank(),
        13,
        last,
    );
    assert(trace[i].0.phase == ZeroConfPhase::ListInvoices);
    assert(zero_conf_step(trace[i].0, trace[i].1) == Ok::<ZeroConfRunView, Seq<char>>(trace[i +
        1].0));
}

impl ZeroConfRun {
    fn reason(&self) -> (reason: Option<&'static str>)
        ensures
            maybe_str(reason) == downgrade_reason(self.injection),
    {
        match self.injection {
            HarnessInjection::ZeroConfRbfReplacement => Some("replacement"),
            HarnessInjection::ZeroConfDoubleSpend => Some("conflict"),
            HarnessInjection::ZeroConfAncestorEviction => Some("ancestor_unconfirmed"),
            _ => None,
        }
    }

    fn reason_or_empty(&self) -> (reason: &'static str)
        ensures
            reason@ == reason_text(self.injection),
    {
        match self.reason() {
            Some(reason) => reason,
            None => "",
        }
    }

    fn signals(&self) -> (text: &'static str)
        ensures
            text@ == signals_text(self.injection),
    {
        if self.injection == HarnessInjection::ZeroConfRbfReplacement {
            "replacement"
        } else {
            "conflict"
        }
    }

    fn check_downgrade(&self, decision: &JsonObject) -> (checked: Result<(), String>)
        ensures
            told(checked) == downgrade_reading(
                decision@,
                self.injection,
                self.funding_txid@,
                self.attack_reference@,
            ),
    {
        if !decision.says("decision", "confirmation_required") || !decision.says(
            "reason",
            self.reason_or_empty(),
        ) || !decision.says("transaction_id", self.funding_txid.as_str()) {
            return Err(mismatch(decision, self.funding_txid.as_str()));
        }
        let replaced: bool = self.injection != HarnessInjection::ZeroConfAncestorEviction;
        if replaced && !decision.says("replacement_transaction_id", self.attack_reference.as_str())
            || !replaced && decision.contains_key("replacement_transaction_id") {
            return Err("zero-conf downgrade carries the wrong replacement binding".to_owned());
        }
        Ok(())
    }
}

/// What a withdrawn acceptance comes to.
pub open spec fn zero_conf_result(run: ZeroConfRunView) -> JsonView {
    JsonView::Object(
        no_members().insert("order_id"@, text_doc(run.order_id)).insert(
            "payment_hash"@,
            text_doc(run.payment_hash),
        ).insert("funding_txid"@, text_doc(run.funding_txid)).insert(
            "funding_observed_status_id"@,
            text_doc(run.observed_id),
        ).insert("zero_conf_accepted_status_id"@, text_doc(run.accepted_id)).insert(
            "confirmation_required_status_id"@,
            text_doc(run.downgraded_id),
        ).insert("injection"@, text_doc(run.injection.label())).insert(
            "attack_reference"@,
            text_doc(run.attack_reference),
        ).insert("accepted_decision"@, text_doc("accepted"@)).insert(
            "downgraded_decision"@,
            text_doc("confirmation_required"@),
        ).insert("reason"@, text_doc(reason_text(run.injection))).insert(
            "invoice_state"@,
            text_doc("unpaid"@),
        ).insert("provider_settlement_effects"@, number_doc(0)).insert(
            "outcome"@,
            text_doc("confirmation_required_without_effect"@),
        ),
    )
}

impl ZeroConfRun {
    fn result_document(&self) -> (document: Json)
        ensures
            document@ == zero_conf_result(self@),
    {
        Json::object(
            JsonObject::new().with_text("order_id", self.order_id.as_str()).with_text(
                "payment_hash",
                self.payment_hash.as_str(),
            ).with_text("funding_txid", self.funding_txid.as_str()).with_text(
                "funding_observed_status_id",
                self.observed_id.as_str(),
            ).with_text("zero_conf_accepted_status_id", self.accepted_id.as_str()).with_text(
                "confirmation_required_status_id",
                self.downgraded_id.as_str(),
            ).with("injection", Json::text(self.injection.name())).with_text(
                "attack_reference",
                self.attack_reference.as_str(),
            ).with_text("accepted_decision", "accepted").with_text(
                "downgraded_decision",
                "confirmation_required",
            ).with("reason", Json::text(self.reason_or_empty())).with_text(
                "invoice_state",
                "unpaid",
            ).with_number("provider_settlement_effects", 0).with_text(
                "outcome",
                "confirmation_required_without_effect",
            ),
        )
    }

    /// What a withdrawn acceptance comes to; nothing before it is over.
    pub fn result(&self) -> (document: Option<Json>)
        ensures
            match document {
                Some(document) => self@.phase == ZeroConfPhase::Finished && document@ == zero_conf_result(self@),
                None => self@.phase != ZeroConfPhase::Finished,
            },
    {
        if self.phase == ZeroConfPhase::Finished {
            Some(self.result_document())
        } else {
            None
        }
    }
}

/// An acceptance that was withdrawn names its lock and the reason that the fault gives.
pub proof fn law_withdrawal_names_its_reason(run: ZeroConfRunView, reply: ReplyView)
    requires
        run.phase == ZeroConfPhase::AwaitDowngrade,
        zero_conf_step(run, reply) is Ok,
    ensures
        reply matches ReplyView::Record { content, .. } && (decision_reading(
            content,
            "zero-conf downgraded Status has no decision proof"@,
        ) matches Ok(decision) && said(decision, "reason"@) == Some(reason_text(run.injection))
            && said(decision, "transaction_id"@) == Some(run.funding_txid)),
{
}

/// A lock without confirmations is asked for exactly where the fault is one that takes such a lock back,
/// and each of those faults has a reason of its own.
pub proof fn law_each_downgrade_has_its_reason(first: HarnessInjection, second: HarnessInjection)
    ensures
        downgrade_reason(first) is Some <==> wants_zero_confirmation(Some(first)),
        downgrade_reason(first) is Some && downgrade_reason(first) == downgrade_reason(second)
            ==> first == second,
{
    reveal_strlit("replacement");
    reveal_strlit("conflict");
    reveal_strlit("ancestor_unconfirmed");
    assert("replacement"@.len() == 11);
    assert("conflict"@.len() == 8);
    assert("ancestor_unconfirmed"@.len() == 20);
}

/// A lock is accepted for one transaction only, and only by what the provider sees themselves.
pub proof fn law_acceptance_is_of_one_lock(
    decision: Map<Seq<char>, JsonView>,
    funding_txid: Seq<char>,
    other: Seq<char>,
)
    requires
        accepts_locally(decision, funding_txid),
    ensures
        accepts_locally(decision, other) <==> other == funding_txid,
        said(decision, "transaction_id"@) == Some(funding_txid),
        said(decision, "decision"@) == Some("accepted"@),
        said(decision, "view"@) == Some("provider_local_bitcoind"@),
{
}

} // verus!
