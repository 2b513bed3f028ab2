//! Terminal evidence: what a provider's close claims, held against what the local nodes show.

use vstd::prelude::*;
use vstd::string::*;
use crate::contract::{
    bounded_u32_member, bounded_u32_reading, bytes_member, leg_verifier, required_bytes,
    required_reading, required_string, same_bytes, verifier_for_leg,
};
use crate::control::{counted, said};
use crate::hex::{
    decode_hex, display_txid_wire, hex_reading, hex_text, is_lower_hex_32, lower_hex,
    require_lower_hex_32, told_bytes, txid_wire_reading,
};
use crate::json::{
    Json, JsonObject, JsonView, items_of, items_view, lemma_items_view, lemma_kinds, member,
    member_text, members_of, no_members, text_doc, text_of,
};
use crate::lifecycle::{outpoint, outpoint_text};
use crate::record::{
    Event, lemma_filter_empty, lemma_filter_step, profile_reading, record_profile, told_object,
};
use crate::text::{decimal, decimal_text, join, join3, maybe, maybe_str, same_text, told, told_text};

verus! {

/// What the client asks to see of a leg before it accepts a close.
pub struct RailObservationRequest {
    pub leg_id: String,
    pub rail: String,
    pub evidence_class: String,
    pub rung: String,
    pub verifier_policy: String,
    pub reference: String,
    pub outcome: String,
}

/// An input of a transaction.
pub struct TxInput {
    pub previous_txid: Vec<u8>,
    pub previous_output: u32,
}

/// A parsed transaction: its identifier, or why it has none, and its inputs.
pub struct ParsedTransaction {
    pub txid: Result<Vec<u8>, String>,
    pub inputs: Vec<TxInput>,
}

/// What is known of a payment over Lightning.
pub enum LightningTerminalCheck {
    IncomingInvoice { payment_hash: String },
    OutgoingPayment { invoice: String, payment_hash: String, expected_status: String },
}

/// The evidence of a leg as the client takes it.
pub struct LocalRailEvidence {
    pub artifact_sha256: String,
    pub observed_at: u64,
    pub view: String,
    pub settlement_reference: String,
    pub verifier_pubkey: Option<String>,
    pub producer_pubkey: String,
    pub external_identifier: String,
}

/// The references that the content of a close lists.
pub open spec fn references_reading(content: Seq<char>) -> Result<Seq<JsonView>, Seq<char>> {
    match profile_reading(content) {
        Err(message) => Err(message),
        Ok(profile) => match members_of(member(JsonView::Object(profile), "loss_accounting"@)) {
            None => Err("provider Close has no terminal evidence references"@),
            Some(accounting) => match items_of(
                member(JsonView::Object(accounting), "evidence_refs"@),
            ) {
                None => Err("provider Close has no terminal evidence references"@),
                Some(references) => Ok(references),
            },
        },
    }
}

/// The references that the content of a close lists: it can be had exactly where every part that it
/// rests on can, and each part of it is the one that its name says.
pub proof fn law_references_is_read_from_its_parts(content: Seq<char>)
    ensures
        ({
            let read = references_reading(content);
            let profile = profile_reading(content)->Ok_0;
            let accounting = members_of(member(JsonView::Object(profile), "loss_accounting"@))->0;
            let given = read->Ok_0;
            &&& read is Ok <==> {
                &&& profile_reading(content) is Ok
                &&& members_of(member(JsonView::Object(profile), "loss_accounting"@)) is Some
                &&& items_of(member(JsonView::Object(accounting), "evidence_refs"@)) is Some
            }
            &&& read is Ok ==> {
                &&& given == items_of(member(JsonView::Object(accounting), "evidence_refs"@))->0
            }
        }),
{
}

/// A copy of some documents.
pub fn copy_items(items: &Vec<Json>) -> (copied: Vec<Json>)
    ensures
        items_view(copied@) == items_view(items@),
{
    let mut copied: Vec<Json> = Vec::new();
    let mut i: usize = 0;
    while i < items.len()
        invariant
            i <= items@.len(),
            copied@.len() == i,
            forall|j: int| 0 <= j < i ==> (#[trigger] copied@[j])@ == items@[j]@,
        decreases items@.len() - i,
    {
        copied.push(items[i].copy());
        i = i + 1;
    }
    proof {
        lemma_items_view(copied@);
        lemma_items_view(items@);
        assert(items_view(copied@) =~= items_view(items@));
    }
    copied
}

/// The references that a close lists.
pub fn close_evidence_references(close: &Event) -> (references: Result<Vec<Json>, String>)
    ensures
        (match references {
            Ok(references) => Ok(items_view(references@)),
            Err(message) => Err(message@),
        }) == references_reading(close.content@),
{
    let profile: JsonObject = record_profile(close)?;
    let accounting: Option<&JsonObject> = match profile.get("loss_accounting") {
        Some(value) => value.as_object(),
        None => None,
    };
    let references: Option<&Vec<Json>> = match accounting {
        Some(accounting) => match accounting.get("evidence_refs") {
            Some(value) => value.as_array(),
            None => None,
        },
        None => None,
    };
    match references {
        Some(references) => Ok(copy_items(references)),
        None => Err("provider Close has no terminal evidence references".to_owned()),
    }
}

/// The references that answer a request.
pub open spec fn answers(request: RailObservationRequest) -> spec_fn(JsonView) -> bool {
    |reference: JsonView|
        reference is Object && member_text(reference, "rail"@) == Some(request.rail@)
            && member_text(reference, "class"@) == Some(request.evidence_class@) && member_text(
            reference,
            "rung"@,
        ) == Some(request.rung@) && member_text(reference, "verifier_policy"@) == Some(
            request.verifier_policy@,
        )
}

/// What the one reference of a close that answers a request reads as.
pub open spec fn reference_reading(content: Seq<char>, request: RailObservationRequest) -> Result<
    Map<Seq<char>, JsonView>,
    Seq<char>,
> {
    match references_reading(content) {
        Err(message) => Err(message),
        Ok(references) => {
            let found = references.filter(answers(request));
            if found.len() == 1 {
                Ok(found[0]->Object_0)
            } else {
                Err(
                    "provider Close does not carry one exact "@ + request.rail@
                        + " terminal reference"@,
                )
            }
        },
    }
}

/// What the one reference of a close that answers a request reads as: it can be had exactly where
/// every part that it rests on can, and each part of it is the one that its name says.
pub proof fn law_reference_is_read_from_its_parts(
    content: Seq<char>,
    request: RailObservationRequest,
)
    ensures
        ({
            let read = reference_reading(content, request);
            let found = references_reading(content)->Ok_0.filter(answers(request));
            let given = read->Ok_0;
            &&& read is Ok <==> {
                &&& references_reading(content) is Ok
                &&& found.len() == 1
            }
            &&& read is Ok ==> {
                &&& given == found[0]->Object_0
            }
        }),
{
}

/// The one reference of a close that answers a request.
pub fn exact_close_evidence_reference(close: &Event, request: &RailObservationRequest) -> (reference:
    Result<JsonObject, String>)
    ensures
        told_object(reference) == reference_reading(close.content@, *request),
{
    let references: Vec<Json> = close_evidence_references(close)?;
    let ghost views = items_view(references@);
    let ghost keep = answers(*request);
    let mut found: Option<JsonObject> = None;
    let mut many: bool = false;
    let mut i: usize = 0;
    proof {
        lemma_items_view(references@);
        lemma_filter_empty(views, keep);
    }
    while i < references.len()
        invariant
            i <= references@.len(),
            views == items_view(references@),
            views.len() == references@.len(),
            keep == answers(*request),
            forall|j: int| 0 <= j < references@.len() ==> #[trigger] views[j] == references@[j]@,
            many ==> found is Some && views.subrange(0, i as int).filter(keep).len() > 1,
            !many ==> match found {
                Some(object) => views.subrange(0, i as int).filter(keep).len() == 1
                    && views.subrange(0, i as int).filter(keep)[0] == JsonView::Object(object@),
                None => views.subrange(0, i as int).filter(keep).len() == 0,
            },
        decreases references@.len() - i,
    {
        proof {
            lemma_filter_step(views, keep, i as int);
            assert(views[i as int] == references@[i as int]@);
        }
        let reference: &Json = &references[i];
        if let Some(object) = reference.as_object() {
            if reference.says("rail", request.rail.as_str()) && reference.says(
                "class",
                request.evidence_class.as_str(),
            ) && reference.says("rung", request.rung.as_str()) && reference.says(
                "verifier_policy",
                request.verifier_policy.as_str(),
            ) {
                if found.is_some() {
                    many = true;
                } else {
                    found = Some(object.copy());
                }
            }
        }
        i = i + 1;
    }
    assert(views.subrange(0, i as int) =~= views);
    match found {
        Some(object) if !many => Ok(object),
        _ => Err(
            join3(
                "provider Close does not carry one exact ",
                request.rail.as_str(),
                " terminal reference",
            ),
        ),
    }
}

/// The funding outpoint that a contract binds, and the transaction that has to end it.
pub struct BitcoinTerminalBinding {
    pub funding_raw: Vec<u8>,
    pub funding_transaction_id: String,
    pub funding_output_index: u32,
    pub terminal_transaction_id: String,
    pub requires_spend: bool,
}

/// What a funding outpoint and the transaction that has to end it are.
#[verifier::ext_equal]
pub struct TerminalBindingView {
    pub funding_raw: Seq<u8>,
    pub funding_transaction_id: Seq<char>,
    pub funding_output_index: u32,
    pub terminal_transaction_id: Seq<char>,
    pub requires_spend: bool,
}

impl View for BitcoinTerminalBinding {
    type V = TerminalBindingView;

    open spec fn view(&self) -> TerminalBindingView {
        TerminalBindingView {
            funding_raw: self.funding_raw@,
            funding_transaction_id: self.funding_transaction_id@,
            funding_output_index: self.funding_output_index,
            terminal_transaction_id: self.terminal_transaction_id@,
            requires_spend: self.requires_spend,
        }
    }
}

/// The identifier of a parsed transaction as it is shown, or why there is none.
pub open spec fn shown_id(
    parsed: Result<ParsedTransaction, String>,
    invalid: Seq<char>,
    unnamed: Seq<char>,
) -> Result<Seq<char>, Seq<char>> {
    match parsed {
        Err(message) => Err(invalid + message@),
        Ok(transaction) => match transaction.txid {
            Err(message) => Err(unnamed + message@),
            Ok(txid) => Ok(hex_text(txid@)),
        },
    }
}

/// The identifier of a parsed transaction as it is shown, or why there is none: it can be had
/// exactly where every part that it rests on can, and each part of it is the one that its name
/// says.
pub proof fn law_shown_id_is_read_from_its_parts(
    parsed: Result<ParsedTransaction, String>,
    invalid: Seq<char>,
    unnamed: Seq<char>,
)
    ensures
        ({
            let read = shown_id(parsed, invalid, unnamed);
            let transaction = parsed->Ok_0;
            let given = read->Ok_0;
            &&& read is Ok <==> {
                &&& parsed is Ok
                &&& transaction.txid is Ok
            }
            &&& read is Ok ==> {
                &&& given == hex_text(transaction.txid->Ok_0@)
            }
        }),
{
}

/// The identifier of a parsed transaction as it is shown, or why there is none.
pub fn show_id(
    parsed: &Result<ParsedTransaction, String>,
    invalid: &str,
    unnamed: &str,
) -> (id: Result<String, String>)
    ensures
        told_text(id) == shown_id(*parsed, invalid@, unnamed@),
{
    match parsed {
        Err(message) => Err(join(invalid, message.as_str())),
        Ok(transaction) => match &transaction.txid {
            Err(message) => Err(join(unnamed, message.as_str())),
            Ok(txid) => Ok(lower_hex(txid.as_slice())),
        },
    }
}

/// The funding transaction that the contract holds for a leg.
pub open spec fn contract_funding(contract: JsonView, leg_id: Seq<char>, invalid: Seq<char>) -> Result<
    Seq<u8>,
    Seq<char>,
> {
    match leg_verifier(contract, leg_id) {
        None => Err("funded contract has no "@ + leg_id + " verifier"@),
        Some(verifier) => match required_bytes(verifier, "funding_transaction"@) {
            Err(message) => Err(invalid + message),
            Ok(raw) => Ok(raw),
        },
    }
}

/// The funding transaction that the contract holds for a leg: it can be had exactly where every
/// part that it rests on can, and each part of it is the one that its name says.
pub proof fn law_contract_funding_is_read_from_its_parts(
    contract: JsonView,
    leg_id: Seq<char>,
    invalid: Seq<char>,
)
    ensures
        ({
            let read = contract_funding(contract, leg_id, invalid);
            let verifier = leg_verifier(contract, leg_id)->0;
            let given = read->Ok_0;
            &&& read is Ok <==> {
                &&& leg_verifier(contract, leg_id) is Some
                &&& required_bytes(verifier, "funding_transaction"@) is Ok
            }
            &&& read is Ok ==> {
                &&& given == required_bytes(verifier, "funding_transaction"@)->Ok_0
            }
        }),
{
}

/// The funding transaction that the contract holds for a leg.
pub fn contract_funding_bytes(contract: &Json, leg_id: &str, invalid: &str) -> (raw: Result<
    Vec<u8>,
    String,
>)
    ensures
        told_bytes(raw) == contract_funding(contract@, leg_id@, invalid@),
{
    let verifier: &JsonObject = verifier_for_leg(contract, leg_id)?;
    match bytes_member(verifier, "funding_transaction") {
        Ok(raw) => Ok(raw),
        Err(message) => Err(join(invalid, message.as_str())),
    }
}

/// What the Bitcoin outpoint that a close refers to reads as.
pub open spec fn bitcoin_binding_reading(
    request: RailObservationRequest,
    settlement_reference: Seq<char>,
    settlement: Option<Seq<char>>,
    contract: JsonView,
    funding: Result<ParsedTransaction, String>,
) -> Result<TerminalBindingView, Seq<char>> {
    match contract_funding(
        contract,
        request.leg_id@,
        "contract funding transaction is invalid: "@,
    ) {
        Err(message) => Err(message),
        Ok(raw) => match shown_id(
            funding,
            "contract funding transaction is invalid: "@,
            "could not derive contract funding transaction ID: "@,
        ) {
            Err(message) => Err(message),
            Ok(id) => match bounded_u32_reading(
                leg_verifier(contract, request.leg_id@)->0,
                "output_index"@,
            ) {
                Err(message) => Err(message),
                Ok(index) => {
                    let bound = request.reference@ == outpoint_text(id, index)
                        && settlement_reference == outpoint_text(id, index);
                    if request.evidence_class@ == "bitcoin_output"@ && bound {
                        Ok(
                            TerminalBindingView {
                                funding_raw: raw,
                                funding_transaction_id: id,
                                funding_output_index: index,
                                terminal_transaction_id: id,
                                requires_spend: false,
                            },
                        )
                    } else if request.evidence_class@ == "bitcoin_spend"@ && bound {
                        match settlement {
                            None => Err(
                                "terminal Bitcoin spend has no local settlement transaction"@,
                            ),
                            Some(settlement) => Ok(
                                TerminalBindingView {
                                    funding_raw: raw,
                                    funding_transaction_id: id,
                                    funding_output_index: index,
                                    terminal_transaction_id: settlement,
                                    requires_spend: true,
                                },
                            ),
                        }
                    } else {
                        Err(
                            "provider Close Bitcoin reference differs from the locally bound settlement"@,
                        )
                    }
                },
            },
        },
    }
}

/// What the Bitcoin outpoint that a close refers to reads as: it can be had exactly where every
/// part that it rests on can, and each part of it is the one that its name says.
pub proof fn law_bitcoin_binding_is_read_from_its_parts(
    request: RailObservationRequest,
    settlement_reference: Seq<char>,
    settlement: Option<Seq<char>>,
    contract: JsonView,
    funding: Result<ParsedTransaction, String>,
)
    ensures
        ({
            let read = bitcoin_binding_reading(
                request,
                settlement_reference,
                settlement,
                contract,
                funding,
            );
            let raw = contract_funding(
                contract,
                request.leg_id@,
                "contract funding transaction is invalid: "@,
            )->Ok_0;
            let id = shown_id(
                funding,
                "contract funding transaction is invalid: "@,
                "could not derive contract funding transaction ID: "@,
            )->Ok_0;
            let index = bounded_u32_reading(
                leg_verifier(contract, request.leg_id@)->0,
                "output_index"@,
            )->Ok_0;
            let bound = request.reference@ == outpoint_text(id, index)
                && settlement_reference == outpoint_text(id, index);
            let given = read->Ok_0;
            let case_1 = {
                &&& request.evidence_class@ == "bitcoin_output"@
                &&& bound
            };
            let case_2 = {
                &&& !(request.evidence_class@ == "bitcoin_output"@ && bound)
                &&& request.evidence_class@ == "bitcoin_spend"@
                &&& bound
                &&& settlement is Some
            };
            &&& read is Ok <==> {
                &&& contract_funding(
                    contract,
                    request.leg_id@,
                    "contract funding transaction is invalid: "@,
                ) is Ok
                &&& shown_id(
                    funding,
                    "contract funding transaction is invalid: "@,
                    "could not derive contract funding transaction ID: "@,
                ) is Ok
                &&& bounded_u32_reading(
                    leg_verifier(contract, request.leg_id@)->0,
                    "output_index"@,
                ) is Ok
                &&& case_1 || case_2
            }
            &&& read is Ok && case_1 ==> {
                &&& given.funding_raw == raw
                &&& given.funding_transaction_id == id
                &&& given.funding_output_index == index
                &&& given.terminal_transaction_id == id
                &&& !given.requires_spend
            }
            &&& read is Ok && case_2 ==> {
                &&& given.funding_raw == raw
                &&& given.funding_transaction_id == id
                &&& given.funding_output_index == index
                &&& given.terminal_transaction_id == settlement->0
                &&& given.requires_spend
            }
        }),
{
}

/// The Bitcoin outpoint that a close refers to. `funding` is the parsed funding transaction of the
/// contract.
pub fn bitcoin_terminal_binding(
    request: &RailObservationRequest,
    settlement_reference: &str,
    settlement_transaction_id: Option<&str>,
    contract: &Json,
    funding: &Result<ParsedTransaction, String>,
) -> (binding: Result<BitcoinTerminalBinding, String>)
    ensures
        (match binding {
            Ok(binding) => Ok(binding@),
            Err(message) => Err(message@),
        }) == bitcoin_binding_reading(
            *request,
            settlement_reference@,
            maybe_str(settlement_transaction_id),
            contract@,
            *funding,
        ),
{
    let funding_raw: Vec<u8> = contract_funding_bytes(
        contract,
        request.leg_id.as_str(),
        "contract funding transaction is invalid: ",
    )?;
    let funding_transaction_id: String = show_id(
        funding,
        "contract funding transaction is invalid: ",
        "could not derive contract funding transaction ID: ",
    )?;
    let verifier: &JsonObject = verifier_for_leg(contract, request.leg_id.as_str())?;
    let funding_output_index: u32 = bounded_u32_member(verifier, "output_index")?;
    let bound_to: String = outpoint(funding_transaction_id.as_str(), funding_output_index);
    let bound: bool = same_text(request.reference.as_str(), bound_to.as_str()) && same_text(
        settlement_reference,
        bound_to.as_str(),
    );
    if same_text(request.evidence_class.as_str(), "bitcoin_output") && bound {
        let terminal_transaction_id: String = funding_transaction_id.clone();
        Ok(
            BitcoinTerminalBinding {
                funding_raw,
                funding_transaction_id,
                funding_output_index,
                terminal_transaction_id,
                requires_spend: false,
            },
        )
    } else if same_text(request.evidence_class.as_str(), "bitcoin_spend") && bound {
        match settlement_transaction_id {
            None => Err("terminal Bitcoin spend has no local settlement transaction".to_owned()),
            Some(settlement) => Ok(
                BitcoinTerminalBinding {
                    funding_raw,
                    funding_transaction_id,
                    funding_output_index,
                    terminal_transaction_id: settlement.to_owned(),
                    requires_spend: true,
                },
            ),
        }
    } else {
        Err("provider Close Bitcoin reference differs from the locally bound settlement".to_owned())
    }
}

/// What a node's report of a transaction that must be final reads as: its bytes.
pub open spec fn final_report_reading(
    report: JsonView,
    transaction_id: Seq<char>,
    confirmations: u64,
) -> Result<Seq<u8>, Seq<char>> {
    match members_of(Some(report)) {
        None => Err("terminal Bitcoin transaction response is not an object"@),
        Some(members) => {
            let seen_confirmations = counted(members, "confirmations"@);
            if said(members, "txid"@) != Some(transaction_id) || seen_confirmations is None
                || seen_confirmations->0 < confirmations {
                Err("terminal Bitcoin transaction is not final in the local node view"@)
            } else {
                match said(members, "hex"@) {
                    None => Err("terminal Bitcoin response has no raw transaction"@),
                    Some(text) => hex_reading(text),
                }
            }
        },
    }
}

/// What a node's report of a transaction that must be final reads as: it can be had exactly where
/// every part that it rests on can, and each part of it is the one that its name says.
pub proof fn law_final_report_is_read_from_its_parts(
    report: JsonView,
    transaction_id: Seq<char>,
    confirmations: u64,
)
    ensures
        ({
            let read = final_report_reading(report, transaction_id, confirmations);
            let members = members_of(Some(report))->0;
            let seen_confirmations = counted(members, "confirmations"@);
            let text = said(members, "hex"@)->0;
            let given = read->Ok_0;
            &&& read is Ok <==> {
                &&& members_of(Some(report)) is Some
                &&& said(members, "txid"@) == Some(transaction_id)
                &&& seen_confirmations is Some
                &&& seen_confirmations->0 >= confirmations
                &&& said(members, "hex"@) is Some
                &&& hex_reading(text) is Ok
            }
            &&& read is Ok ==> {
                &&& given == hex_reading(text)->Ok_0
            }
        }),
{
}

/// The bytes of a transaction that a node reports as final.
pub fn final_bitcoin_report(report: &Json, transaction_id: &str, terminal_confirmations: u64) -> (raw:
    Result<Vec<u8>, String>)
    ensures
        told_bytes(raw) == final_report_reading(report@, transaction_id@, terminal_confirmations),
{
    let members: &JsonObject = match report.as_object() {
        Some(members) => members,
        None => {
            return Err("terminal Bitcoin transaction response is not an object".to_owned());
        },
    };
    let final_enough: bool = match members.u64_at("confirmations") {
        Some(confirmations) => confirmations >= terminal_confirmations,
        None => false,
    };
    if !members.says("txid", transaction_id) || !final_enough {
        return Err("terminal Bitcoin transaction is not final in the local node view".to_owned());
    }
    match members.text_at("hex") {
        None => Err("terminal Bitcoin response has no raw transaction".to_owned()),
        Some(text) => decode_hex(text),
    }
}

/// What the identity of a parsed final transaction reads as.
pub open spec fn final_identity_reading(
    parsed: Result<ParsedTransaction, String>,
    transaction_id: Seq<char>,
) -> Result<(), Seq<char>> {
    match shown_id(
        parsed,
        "terminal Bitcoin transaction is invalid: "@,
        "could not derive terminal Bitcoin transaction ID: "@,
    ) {
        Err(message) => Err(message),
        Ok(id) => if id == transaction_id {
            Ok(())
        } else {
            Err("terminal Bitcoin transaction has another transaction ID"@)
        },
    }
}

/// Checks that a parsed final transaction is the one that was asked for.
pub fn final_bitcoin_identity(parsed: &Result<ParsedTransaction, String>, transaction_id: &str) -> (
checked: Result<(), String>)
    ensures
        told(checked) == final_identity_reading(*parsed, transaction_id@),
{
    let id: String = show_id(
        parsed,
        "terminal Bitcoin transaction is invalid: ",
        "could not derive terminal Bitcoin transaction ID: ",
    )?;
    if same_text(id.as_str(), transaction_id) {
        Ok(())
    } else {
        Err("terminal Bitcoin transaction has another transaction ID".to_owned())
    }
}

/// Whether some input spends an outpoint, its transaction given in wire order.
pub open spec fn spends(inputs: Seq<TxInput>, txid: Seq<u8>, output: u32) -> bool {
    exists|i: int|
        0 <= i < inputs.len() && (#[trigger] inputs[i]).previous_txid@ == txid
            && inputs[i].previous_output == output
}

fn some_input_spends(inputs: &Vec<TxInput>, txid: &Vec<u8>, output: u32) -> (found: bool)
    ensures
        found == spends(inputs@, txid@, output),
{
    let mut i: usize = 0;
    while i < inputs.len()
        invariant
            i <= inputs@.len(),
            forall|j: int|
                0 <= j < i ==> !((#[trigger] inputs@[j]).previous_txid@ == txid@
                    && inputs@[j].previous_output == output),
        decreases inputs@.len() - i,
    {
        if same_bytes(&inputs[i].previous_txid, txid) && inputs[i].previous_output == output {
            return true;
        }
        i = i + 1;
    }
    false
}

/// What the local nodes show of the end of a Bitcoin leg.
pub struct BitcoinTerminalView {
    /// The bytes of the terminal transaction.
    pub raw: Vec<u8>,
    /// The inputs of the terminal transaction.
    pub inputs: Vec<TxInput>,
    /// The inputs of the destination settlement, where one was asked for.
    pub settlement_inputs: Vec<TxInput>,
    /// Whether the funding outpoint is still unspent.
    pub unspent: bool,
}

/// What the end of a Bitcoin leg reads as: the text that identifies it.
pub open spec fn bitcoin_terminal_reading(
    binding: TerminalBindingView,
    settlement: Option<Seq<char>>,
    view: BitcoinTerminalView,
    confirmations: u64,
) -> Result<Seq<char>, Seq<char>> {
    match txid_wire_reading(binding.funding_transaction_id) {
        Err(message) => Err(message),
        Ok(wire) => if !binding.requires_spend {
            if view.raw@ != binding.funding_raw {
                Err("terminal Bitcoin output differs from the contracted funding bytes"@)
            } else {
                match settlement {
                    None => Err("terminal Bitcoin output has no local destination settlement"@),
                    Some(settlement) => if !spends(
                        view.settlement_inputs@,
                        wire,
                        binding.funding_output_index,
                    ) {
                        Err(
                            "terminal Bitcoin destination settlement does not spend the contract outpoint"@,
                        )
                    } else {
                        Ok(
                            "bitcoind:output:"@ + binding.terminal_transaction_id
                                + ":settlement:"@ + settlement + ":"@ + decimal(
                                confirmations as nat,
                            ),
                        )
                    },
                }
            }
        } else if !spends(view.inputs@, wire, binding.funding_output_index) {
            Err("terminal Bitcoin transaction does not spend the contract outpoint"@)
        } else if view.unspent {
            Err("contract Bitcoin outpoint remains unspent in the local node view"@)
        } else {
            Ok(
                "bitcoind:"@ + binding.terminal_transaction_id + ":"@ + decimal(
                    confirmations as nat,
                ),
            )
        },
    }
}

/// What the end of a Bitcoin leg reads as: it can be had exactly where every part that it rests on
/// can, and each part of it is the one that its name says.
pub proof fn law_bitcoin_terminal_is_read_from_its_parts(
    binding: TerminalBindingView,
    settlement: Option<Seq<char>>,
    view: BitcoinTerminalView,
    confirmations: u64,
)
    ensures
        ({
            let read = bitcoin_terminal_reading(binding, settlement, view, confirmations);
            let wire = txid_wire_reading(binding.funding_transaction_id)->Ok_0;
            let given = read->Ok_0;
            let case_1 = {
                &&& !binding.requires_spend
                &&& view.raw@ == binding.funding_raw
                &&& settlement is Some
                &&& spends(view.settlement_inputs@, wire, binding.funding_output_index)
            };
            let case_2 = {
                &&& binding.requires_spend
                &&& spends(view.inputs@, wire, binding.funding_output_index)
                &&& !(view.unspent)
            };
            &&& read is Ok <==> {
                &&& txid_wire_reading(binding.funding_transaction_id) is Ok
                &&& case_1 || case_2
            }
            &&& read is Ok && case_1 ==> {
                &&& given == "bitcoind:output:"@ + binding.terminal_transaction_id + ":settlement:"@ + settlement->0 + ":"@ + decimal(
                    confirmations as nat,
                )
            }
            &&& read is Ok && case_2 ==> {
                &&& given == "bitcoind:"@ + binding.terminal_transaction_id + ":"@ + decimal(
                    confirmations as nat,
                )
            }
        }),
{
}

fn wire_vec(id: &str) -> (wire: Result<Vec<u8>, String>)
    ensures
        told_bytes(wire) == txid_wire_reading(id@),
{
    let array: [u8; 32] = display_txid_wire(id)?;
    let mut wire: Vec<u8> = Vec::new();
    let mut i: usize = 0;
    while i < 32
        invariant
            i <= 32,
            wire@.len() == i,
            forall|j: int| 0 <= j < i ==> #[trigger] wire@[j] == array@[j],
        decreases 32 - i,
    {
        wire.push(array[i]);
        i = i + 1;
    }
    assert(wire@ =~= array@);
    Ok(wire)
}

/// Checks the end of a Bitcoin leg against what the local nodes show, and names it.
pub fn verify_local_bitcoin_terminal(
    binding: &BitcoinTerminalBinding,
    settlement_transaction_id: Option<&str>,
    view: &BitcoinTerminalView,
    terminal_confirmations: u64,
) -> (identifier: Result<String, String>)
    ensures
        told_text(identifier) == bitcoin_terminal_reading(
            binding@,
            maybe_str(settlement_transaction_id),
            *view,
            terminal_confirmations,
        ),
{
    let wire: Vec<u8> = wire_vec(binding.funding_transaction_id.as_str())?;
    let suffix: String = decimal_text(terminal_confirmations);
    if !binding.requires_spend {
        if !same_bytes(&view.raw, &binding.funding_raw) {
            return Err(
                "terminal Bitcoin output differs from the contracted funding bytes".to_owned(),
            );
        }
        let settlement: &str = match settlement_transaction_id {
            Some(settlement) => settlement,
            None => {
                return Err(
                    "terminal Bitcoin output has no local destination settlement".to_owned(),
                );
            },
        };
        if !some_input_spends(&view.settlement_inputs, &wire, binding.funding_output_index) {
            return Err(
                "terminal Bitcoin destination settlement does not spend the contract outpoint".to_owned(),
            );
        }
        let mut identifier: String = join3(
            "bitcoind:output:",
            binding.terminal_transaction_id.as_str(),
            ":settlement:",
        );
        identifier.append(settlement);
        identifier.append(":");
        identifier.append(suffix.as_str());
        return Ok(identifier);
    }
    if !some_input_spends(&view.inputs, &wire, binding.funding_output_index) {
        return Err("terminal Bitcoin transaction does not spend the contract outpoint".to_owned());
    }
    if view.unspent {
        return Err("contract Bitcoin outpoint remains unspent in the local node view".to_owned());
    }
    let mut identifier: String = join3("bitcoind:", binding.terminal_transaction_id.as_str(), ":");
    identifier.append(suffix.as_str());
    Ok(identifier)
}

/// The Liquid funding outpoint that a contract binds, and the transaction that has to end it.
pub struct LiquidTerminalBinding {
    pub funding_raw: Vec<u8>,
    pub funding_transaction_id: String,
    pub funding_output_index: u32,
    pub terminal_transaction_id: String,
    pub requires_spend: bool,
}

impl View for LiquidTerminalBinding {
    type V = TerminalBindingView;

    open spec fn view(&self) -> TerminalBindingView {
        TerminalBindingView {
            funding_raw: self.funding_raw@,
            funding_transaction_id: self.funding_transaction_id@,
            funding_output_index: self.funding_output_index,
            terminal_transaction_id: self.terminal_transaction_id@,
            requires_spend: self.requires_spend,
        }
    }
}

/// The identifier of a parsed Liquid transaction as it is shown, or why it could not be parsed.
pub open spec fn liquid_id(parsed: Result<Seq<u8>, Seq<char>>, invalid: Seq<char>) -> Result<
    Seq<char>,
    Seq<char>,
> {
    match parsed {
        Err(message) => Err(invalid + message),
        Ok(id) => Ok(hex_text(id)),
    }
}

/// The identifier of a parsed Liquid transaction as it is shown, or why it could not be parsed: it
/// can be had exactly where every part that it rests on can, and each part of it is the one that
/// its name says.
pub proof fn law_liquid_id_is_read_from_its_parts(
    parsed: Result<Seq<u8>, Seq<char>>,
    invalid: Seq<char>,
)
    ensures
        ({
            let read = liquid_id(parsed, invalid);
            let given = read->Ok_0;
            &&& read is Ok <==> {
                &&& parsed is Ok
            }
            &&& read is Ok ==> {
                &&& given == hex_text(parsed->Ok_0)
            }
        }),
{
}

/// What the Liquid outpoint that a close refers to reads as.
pub open spec fn liquid_binding_reading(
    request: RailObservationRequest,
    settlement_reference: Seq<char>,
    settlement: Option<Seq<char>>,
    contract: JsonView,
    funding_id: Result<Seq<u8>, Seq<char>>,
) -> Result<TerminalBindingView, Seq<char>> {
    match contract_funding(
        contract,
        request.leg_id@,
        "contract Liquid funding transaction is invalid: "@,
    ) {
        Err(message) => Err(message),
        Ok(raw) => match liquid_id(
            funding_id,
            "contract Liquid funding transaction is invalid: "@,
        ) {
            Err(message) => Err(message),
            Ok(id) => match bounded_u32_reading(
                leg_verifier(contract, request.leg_id@)->0,
                "output_index"@,
            ) {
                Err(message) => Err(message),
                Ok(index) => if request.reference@ != outpoint_text(id, index)
                    || settlement_reference != outpoint_text(id, index) {
                    Err(
                        "provider Close Liquid reference differs from the contracted funding outpoint"@,
                    )
                } else if request.evidence_class@ == "liquid_output"@ {
                    Ok(
                        TerminalBindingView {
                            funding_raw: raw,
                            funding_transaction_id: id,
                            funding_output_index: index,
                            terminal_transaction_id: id,
                            requires_spend: false,
                        },
                    )
                } else if request.evidence_class@ == "liquid_spend"@ {
                    match settlement {
                        None => Err("terminal Liquid spend has no local settlement transaction"@),
                        Some(settlement) => Ok(
                            TerminalBindingView {
                                funding_raw: raw,
                                funding_transaction_id: id,
                                funding_output_index: index,
                                terminal_transaction_id: settlement,
                                requires_spend: true,
                            },
                        ),
                    }
                } else {
                    Err("terminal Liquid evidence class is unsupported"@)
                },
            },
        },
    }
}

/// What the Liquid outpoint that a close refers to reads as: it can be had exactly where every part
/// that it rests on can, and each part of it is the one that its name says.
pub proof fn law_liquid_binding_is_read_from_its_parts(
    request: RailObservationRequest,
    settlement_reference: Seq<char>,
    settlement: Option<Seq<char>>,
    contract: JsonView,
    funding_id: Result<Seq<u8>, Seq<char>>,
)
    ensures
        ({
            let read = liquid_binding_reading(
                request,
                settlement_reference,
                settlement,
                contract,
                funding_id,
            );
            let raw = contract_funding(
                contract,
                request.leg_id@,
                "contract Liquid funding transaction is invalid: "@,
            )->Ok_0;
            let id = liquid_id(
                funding_id,
                "contract Liquid funding transaction is invalid: "@,
            )->Ok_0;
            let index = bounded_u32_reading(
                leg_verifier(contract, request.leg_id@)->0,
                "output_index"@,
            )->Ok_0;
            let given = read->Ok_0;
            let case_1 = request.evidence_class@ == "liquid_output"@;
            let case_2 = {
                &&& request.evidence_class@ != "liquid_output"@
                &&& request.evidence_class@ == "liquid_spend"@
                &&& settlement is Some
            };
            &&& read is Ok <==> {
                &&& contract_funding(
                    contract,
                    request.leg_id@,
                    "contract Liquid funding transaction is invalid: "@,
                ) is Ok
                &&& liquid_id(funding_id, "contract Liquid funding transaction is invalid: "@) is Ok
                &&& bounded_u32_reading(
                    leg_verifier(contract, request.leg_id@)->0,
                    "output_index"@,
                ) is Ok
                &&& request.reference@ == outpoint_text(id, index)
                &&& settlement_reference == outpoint_text(id, index)
                &&& case_1 || case_2
            }
            &&& read is Ok && case_1 ==> {
                &&& given.funding_raw == raw
                &&& given.funding_transaction_id == id
                &&& given.funding_output_index == index
                &&& given.terminal_transaction_id == id
                &&& !given.requires_spend
            }
            &&& read is Ok && case_2 ==> {
                &&& given.funding_raw == raw
                &&& given.funding_transaction_id == id
                &&& given.funding_output_index == index
                &&& given.terminal_transaction_id == settlement->0
                &&& given.requires_spend
            }
        }),
{
}

/// The Liquid outpoint that a close refers to. `funding_id` is the identifier of the parsed funding
/// transaction of the contract.
pub fn liquid_terminal_binding(
    request: &RailObservationRequest,
    settlement_reference: &str,
    settlement_transaction_id: Option<&str>,
    contract: &Json,
    funding_id: &Result<Vec<u8>, String>,
) -> (binding: Result<LiquidTerminalBinding, String>)
    ensures
        (match binding {
            Ok(binding) => Ok(binding@),
            Err(message) => Err(message@),
        }) == liquid_binding_reading(
            *request,
            settlement_reference@,
            maybe_str(settlement_transaction_id),
            contract@,
            told_bytes(*funding_id),
        ),
{
    let funding_raw: Vec<u8> = contract_funding_bytes(
        contract,
        request.leg_id.as_str(),
        "contract Liquid funding transaction is invalid: ",
    )?;
    let funding_transaction_id: String = match funding_id {
        Ok(id) => lower_hex(id.as_slice()),
        Err(message) => {
            return Err(
                join("contract Liquid funding transaction is invalid: ", message.as_str()),
            );
        },
    };
    let verifier: &JsonObject = verifier_for_leg(contract, request.leg_id.as_str())?;
    let funding_output_index: u32 = bounded_u32_member(verifier, "output_index")?;
    let bound_to: String = outpoint(funding_transaction_id.as_str(), funding_output_index);
    if !same_text(request.reference.as_str(), bound_to.as_str()) || !same_text(
        settlement_reference,
        bound_to.as_str(),
    ) {
        return Err(
            "provider Close Liquid reference differs from the contracted funding outpoint".to_owned(),
        );
    }
    if same_text(request.evidence_class.as_str(), "liquid_output") {
        let terminal_transaction_id: String = funding_transaction_id.clone();
        Ok(
            LiquidTerminalBinding {
                funding_raw,
                funding_transaction_id,
                funding_output_index,
                terminal_transaction_id,
                requires_spend: false,
            },
        )
    } else if same_text(request.evidence_class.as_str(), "liquid_spend") {
        match settlement_transaction_id {
            None => Err("terminal Liquid spend has no local settlement transaction".to_owned()),
            Some(settlement) => Ok(
                LiquidTerminalBinding {
                    funding_raw,
                    funding_transaction_id,
                    funding_output_index,
                    terminal_transaction_id: settlement.to_owned(),
                    requires_spend: true,
                },
            ),
        }
    } else {
        Err("terminal Liquid evidence class is unsupported".to_owned())
    }
}

/// What a node shows of a Liquid transaction that must be final.
pub struct LiquidFinalReport {
    pub confirmations: u64,
    /// The identifier of the parsed transaction, or why it could not be parsed.
    pub transaction_id: Result<Vec<u8>, String>,
    pub block_hash: Option<String>,
}

/// What a final Liquid transaction reads as: the hash of its block.
pub open spec fn liquid_final_reading(
    report: LiquidFinalReport,
    transaction_id: Seq<char>,
    confirmations: u64,
) -> Result<Seq<char>, Seq<char>> {
    if report.confirmations < confirmations {
        Err("terminal Liquid transaction is not final in the local node view"@)
    } else {
        match liquid_id(
            told_bytes(report.transaction_id),
            "terminal Liquid transaction is invalid: "@,
        ) {
            Err(message) => Err(message),
            Ok(id) => if id != transaction_id {
                Err("terminal Liquid transaction has another transaction ID"@)
            } else {
                match maybe(report.block_hash) {
                    None => Err("terminal Liquid transaction has no final block hash"@),
                    Some(hash) => Ok(hash),
                }
            },
        }
    }
}

/// What a final Liquid transaction reads as: it can be had exactly where every part that it rests
/// on can, and each part of it is the one that its name says.
pub proof fn law_liquid_final_is_read_from_its_parts(
    report: LiquidFinalReport,
    transaction_id: Seq<char>,
    confirmations: u64,
)
    ensures
        ({
            let read = liquid_final_reading(report, transaction_id, confirmations);
            let given = read->Ok_0;
            &&& read is Ok <==> {
                &&& report.confirmations >= confirmations
                &&& liquid_id(
                    told_bytes(report.transaction_id),
                    "terminal Liquid transaction is invalid: "@,
                ) is Ok
                &&& liquid_id(
                    told_bytes(report.transaction_id),
                    "terminal Liquid transaction is invalid: "@,
                )->Ok_0 == transaction_id
                &&& maybe(report.block_hash) is Some
            }
            &&& read is Ok ==> {
                &&& given == maybe(report.block_hash)->0
            }
        }),
{
}

/// Checks that a Liquid transaction is final, and gives the hash of its block.
pub fn local_final_liquid_transaction(
    report: &LiquidFinalReport,
    transaction_id: &str,
    terminal_confirmations: u64,
) -> (block_hash: Result<String, String>)
    ensures
        told_text(block_hash) == liquid_final_reading(
            *report,
            transaction_id@,
            terminal_confirmations,
        ),
{
    if report.confirmations < terminal_confirmations {
        return Err("terminal Liquid transaction is not final in the local node view".to_owned());
    }
    let id: String = match &report.transaction_id {
        Ok(id) => lower_hex(id.as_slice()),
        Err(message) => {
            return Err(join("terminal Liquid transaction is invalid: ", message.as_str()));
        },
    };
    if !same_text(id.as_str(), transaction_id) {
        return Err("terminal Liquid transaction has another transaction ID".to_owned());
    }
    match &report.block_hash {
        Some(hash) => Ok(hash.clone()),
        None => Err("terminal Liquid transaction has no final block hash".to_owned()),
    }
}

/// What the digest of terminal evidence is taken of.
pub enum TerminalArtifact {
    /// The bytes of the terminal transaction.
    RawTransaction,
    /// The canonical form of a document.
    Document(Json),
}

/// What the digest of terminal evidence is taken of.
pub enum TerminalArtifactView {
    RawTransaction,
    Document(JsonView),
}

impl View for TerminalArtifact {
    type V = TerminalArtifactView;

    open spec fn view(&self) -> TerminalArtifactView {
        match *self {
            TerminalArtifact::RawTransaction => TerminalArtifactView::RawTransaction,
            TerminalArtifact::Document(document) => TerminalArtifactView::Document(document@),
        }
    }
}

/// The document whose digest a close has to carry for a Liquid claim.
pub open spec fn claim_doc(claim: Seq<char>) -> Map<Seq<char>, JsonView> {
    no_members().insert("claim_txid"@, text_doc(claim))
}

/// What the digest and the view of Liquid terminal evidence derive from.
pub open spec fn artifact_reading(
    request: RailObservationRequest,
    binding: TerminalBindingView,
    block_hash: Seq<char>,
    contract: JsonView,
) -> Result<(TerminalArtifactView, Seq<char>), Seq<char>> {
    if request.evidence_class@ == "liquid_output"@ && !binding.requires_spend {
        Ok((TerminalArtifactView::RawTransaction, block_hash))
    } else if request.evidence_class@ != "liquid_spend"@ || !binding.requires_spend {
        Err("terminal Liquid evidence has an unsupported local derivation"@)
    } else {
        match members_of(Some(contract)) {
            None => Err("funded contract is not an object"@),
            Some(members) => match required_reading(members, "swap_type"@) {
                Err(message) => Err(message),
                Ok(swap_type) => {
                    let claim = claim_doc(binding.terminal_transaction_id);
                    if swap_type == "submarine"@ && request.outcome@ == "completed"@ {
                        Ok(
                            (
                                TerminalArtifactView::Document(JsonView::Object(claim)),
                                "provider Liquid claim reached reorg-safe finality"@,
                            ),
                        )
                    } else if swap_type == "reverse"@ && request.outcome@ == "completed"@ {
                        match member_text(contract, "payment_hash"@) {
                            None => Err("funded reverse contract has no payment hash"@),
                            Some(hash) => if !is_lower_hex_32(hash) {
                                Err(
                                    "funded reverse payment hash"@
                                        + " is not lowercase 32-byte hex"@,
                                )
                            } else {
                                Ok(
                                    (
                                        TerminalArtifactView::Document(
                                            JsonView::Object(
                                                claim.insert("payment_hash"@, text_doc(hash)).insert(
                                                    "state"@,
                                                    text_doc("settled"@),
                                                ),
                                            ),
                                        ),
                                        "requester Liquid claim verified before hold settlement"@,
                                    ),
                                )
                            },
                        }
                    } else if swap_type == "chain"@ && request.outcome@ == "completed"@
                        && request.leg_id@ == "source"@ {
                        Ok(
                            (
                                TerminalArtifactView::Document(JsonView::Object(claim)),
                                "provider source claim reached reorg-safe finality"@,
                            ),
                        )
                    } else {
                        Err("terminal Liquid spend has an unsupported local artifact derivation"@)
                    }
                },
            },
        }
    }
}

/// What the digest and the view of Liquid terminal evidence derive from: it can be had exactly
/// where every part that it rests on can, and each part of it is the one that its name says.
pub proof fn law_artifact_is_read_from_its_parts(
    request: RailObservationRequest,
    binding: TerminalBindingView,
    block_hash: Seq<char>,
    contract: JsonView,
)
    ensures
        ({
            let read = artifact_reading(request, binding, block_hash, contract);
            let members = members_of(Some(contract))->0;
            let swap_type = required_reading(members, "swap_type"@)->Ok_0;
            let claim = claim_doc(binding.terminal_transaction_id);
            let hash = member_text(contract, "payment_hash"@)->0;
            let given = read->Ok_0;
            let case_1 = {
                &&& request.evidence_class@ == "liquid_output"@
                &&& !binding.requires_spend
            };
            let case_2 = {
                &&& !(request.evidence_class@ == "liquid_output"@ && !binding.requires_spend)
                &&& request.evidence_class@ == "liquid_spend"@
                &&& binding.requires_spend
                &&& members_of(Some(contract)) is Some
                &&& required_reading(members, "swap_type"@) is Ok
                &&& swap_type == "submarine"@
                &&& request.outcome@ == "completed"@
            };
            let case_3 = {
                &&& !(request.evidence_class@ == "liquid_output"@ && !binding.requires_spend)
                &&& request.evidence_class@ == "liquid_spend"@
                &&& binding.requires_spend
                &&& members_of(Some(contract)) is Some
                &&& required_reading(members, "swap_type"@) is Ok
                &&& !(swap_type == "submarine"@ && request.outcome@ == "completed"@)
                &&& swap_type == "reverse"@
                &&& request.outcome@ == "completed"@
                &&& member_text(contract, "payment_hash"@) is Some
                &&& is_lower_hex_32(hash)
            };
            let case_4 = {
                &&& !(request.evidence_class@ == "liquid_output"@ && !binding.requires_spend)
                &&& request.evidence_class@ == "liquid_spend"@
                &&& binding.requires_spend
                &&& members_of(Some(contract)) is Some
                &&& required_reading(members, "swap_type"@) is Ok
                &&& !(swap_type == "submarine"@ && request.outcome@ == "completed"@)
                &&& !(swap_type == "reverse"@ && request.outcome@ == "completed"@)
                &&& swap_type == "chain"@
                &&& request.outcome@ == "completed"@
                &&& request.leg_id@ == "source"@
            };
            &&& (read is Ok <==> case_1 || case_2 || case_3 || case_4)
            &&& read is Ok && case_1 ==> {
                &&& given.0 == TerminalArtifactView::RawTransaction
                &&& given.1 == block_hash
            }
            &&& read is Ok && case_2 ==> {
                &&& given.0 == TerminalArtifactView::Document(JsonView::Object(claim))
                &&& given.1 == "provider Liquid claim reached reorg-safe finality"@
            }
            &&& read is Ok && case_3 ==> {
                &&& given.0 == TerminalArtifactView::Document(
                    JsonView::Object(
                        claim
                            .insert("payment_hash"@, text_doc(hash))
                            .insert("state"@, text_doc("settled"@)),
                    ),
                )
                &&& given.1 == "requester Liquid claim verified before hold settlement"@
            }
            &&& read is Ok && case_4 ==> {
                &&& given.0 == TerminalArtifactView::Document(JsonView::Object(claim))
                &&& given.1 == "provider source claim reached reorg-safe finality"@
            }
        }),
{
}

/// What the digest and the view of Liquid terminal evidence derive from.
pub fn liquid_terminal_artifact_and_view(
    request: &RailObservationRequest,
    binding: &LiquidTerminalBinding,
    block_hash: &str,
    contract: &Json,
) -> (derived: Result<(TerminalArtifact, String), String>)
    ensures
        (match derived {
            Ok((artifact, view)) => Ok((artifact@, view@)),
            Err(message) => Err(message@),
        }) == artifact_reading(*request, binding@, block_hash@, contract@),
{
    if same_text(request.evidence_class.as_str(), "liquid_output") && !binding.requires_spend {
        return Ok((TerminalArtifact::RawTransaction, block_hash.to_owned()));
    }
    if !same_text(request.evidence_class.as_str(), "liquid_spend") || !binding.requires_spend {
        return Err("terminal Liquid evidence has an unsupported local derivation".to_owned());
    }
    let members: &JsonObject = match contract.as_object() {
        Some(members) => members,
        None => {
            return Err("funded contract is not an object".to_owned());
        },
    };
    let swap_type: &str = required_string(members, "swap_type")?;
    let claim: JsonObject = JsonObject::new().with_text(
        "claim_txid",
        binding.terminal_transaction_id.as_str(),
    );
    let completed: bool = same_text(request.outcome.as_str(), "completed");
    if same_text(swap_type, "submarine") && completed {
        Ok(
            (
                TerminalArtifact::Document(Json::object(claim)),
                "provider Liquid claim reached reorg-safe finality".to_owned(),
            ),
        )
    } else if same_text(swap_type, "reverse") && completed {
        let hash: &str = match contract.text_at("payment_hash") {
            Some(hash) => hash,
            None => {
                return Err("funded reverse contract has no payment hash".to_owned());
            },
        };
        require_lower_hex_32(hash, "funded reverse payment hash")?;
        Ok(
            (
                TerminalArtifact::Document(
                    Json::object(
                        claim.with_text("payment_hash", hash).with_text("state", "settled"),
                    ),
                ),
                "requester Liquid claim verified before hold settlement".to_owned(),
            ),
        )
    } else if same_text(swap_type, "chain") && completed && same_text(
        request.leg_id.as_str(),
        "source",
    ) {
        Ok(
            (
                TerminalArtifact::Document(Json::object(claim)),
                "provider source claim reached reorg-safe finality".to_owned(),
            ),
        )
    } else {
        Err("terminal Liquid spend has an unsupported local artifact derivation".to_owned())
    }
}

/// What the local node proves of the end of a Liquid leg.
pub struct DerivedLiquidTerminalEvidence {
    pub artifact_sha256: String,
    pub view: String,
    pub external_identifier: String,
}

/// What the metadata of a reference reads as, held against the local proof.
pub open spec fn metadata_reading(
    evidence: Map<Seq<char>, JsonView>,
    artifact_sha256: Seq<char>,
    view: Seq<char>,
) -> Result<(), Seq<char>> {
    if said(evidence, "artifact_sha256"@) != Some(artifact_sha256) {
        Err("provider Close Liquid artifact differs from the local transaction proof"@)
    } else if said(evidence, "view"@) != Some(view) {
        Err("provider Close Liquid view differs from the local node proof"@)
    } else {
        Ok(())
    }
}

/// Checks that a reference carries exactly the local proof.
pub fn require_exact_liquid_terminal_metadata(
    evidence: &JsonObject,
    derived: &DerivedLiquidTerminalEvidence,
) -> (checked: Result<(), String>)
    ensures
        told(checked) == metadata_reading(evidence@, derived.artifact_sha256@, derived.view@),
{
    if !evidence.says("artifact_sha256", derived.artifact_sha256.as_str()) {
        return Err(
            "provider Close Liquid artifact differs from the local transaction proof".to_owned(),
        );
    }
    if !evidence.says("view", derived.view.as_str()) {
        return Err("provider Close Liquid view differs from the local node proof".to_owned());
    }
    Ok(())
}

/// Whether some input spends an outpoint, its transaction given as it is shown.
pub open spec fn spends_shown(inputs: Seq<TxInput>, txid: Seq<char>, output: u32) -> bool {
    exists|i: int|
        0 <= i < inputs.len() && hex_text((#[trigger] inputs[i]).previous_txid@) == txid
            && inputs[i].previous_output == output
}

fn some_input_spends_shown(inputs: &Vec<TxInput>, txid: &str, output: u32) -> (found: bool)
    ensures
        found == spends_shown(inputs@, txid@, output),
{
    let mut i: usize = 0;
    while i < inputs.len()
        invariant
            i <= inputs@.len(),
            forall|j: int|
                0 <= j < i ==> !(hex_text((#[trigger] inputs@[j]).previous_txid@) == txid@
                    && inputs@[j].previous_output == output),
        decreases inputs@.len() - i,
    {
        let shown: String = lower_hex(inputs[i].previous_txid.as_slice());
        if same_text(shown.as_str(), txid) && inputs[i].previous_output == output {
            return true;
        }
        i = i + 1;
    }
    false
}

/// What the local node shows of the end of a Liquid leg.
pub struct LiquidTerminalView {
    pub raw: Vec<u8>,
    pub inputs: Vec<TxInput>,
    pub settlement_inputs: Vec<TxInput>,
    /// The transaction that the node reports as spending the funding outpoint.
    pub spender: Option<String>,
}

/// What the end of a Liquid leg reads as: the text that identifies it.
pub open spec fn liquid_terminal_reading(
    binding: TerminalBindingView,
    settlement: Option<Seq<char>>,
    view: LiquidTerminalView,
    confirmations: u64,
) -> Result<Seq<char>, Seq<char>> {
    if !binding.requires_spend {
        if view.raw@ != binding.funding_raw {
            Err("terminal Liquid output differs from the contracted funding bytes"@)
        } else {
            match settlement {
                None => Err("terminal Liquid output has no local destination settlement"@),
                Some(settlement) => if !spends_shown(
                    view.settlement_inputs@,
                    binding.funding_transaction_id,
                    binding.funding_output_index,
                ) {
                    Err(
                        "terminal Liquid destination settlement does not spend the contract outpoint"@,
                    )
                } else if maybe(view.spender) != Some(settlement) {
                    Err("local elementsd reports another Liquid destination spender"@)
                } else {
                    Ok(
                        "elementsd:output:"@ + binding.terminal_transaction_id + ":settlement:"@
                            + settlement + ":"@ + decimal(confirmations as nat),
                    )
                },
            }
        }
    } else if !spends_shown(
        view.inputs@,
        binding.funding_transaction_id,
        binding.funding_output_index,
    ) {
        Err("terminal Liquid transaction does not spend the contract outpoint"@)
    } else if maybe(view.spender) != Some(binding.terminal_transaction_id) {
        Err("local elementsd reports another Liquid funding spender"@)
    } else {
        Ok("elementsd:"@ + binding.terminal_transaction_id + ":"@ + decimal(confirmations as nat))
    }
}

/// What the end of a Liquid leg reads as: it can be had exactly where every part that it rests on
/// can, and each part of it is the one that its name says.
pub proof fn law_liquid_terminal_is_read_from_its_parts(
    binding: TerminalBindingView,
    settlement: Option<Seq<char>>,
    view: LiquidTerminalView,
    confirmations: u64,
)
    ensures
        ({
            let read = liquid_terminal_reading(binding, settlement, view, confirmations);
            let read_settlement = settlement->0;
            let given = read->Ok_0;
            let case_1 = {
                &&& !binding.requires_spend
                &&& view.raw@ == binding.funding_raw
                &&& settlement is Some
                &&& spends_shown(
                    view.settlement_inputs@,
                    binding.funding_transaction_id,
                    binding.funding_output_index,
                )
                &&& maybe(view.spender) == Some(read_settlement)
            };
            let case_2 = {
                &&& binding.requires_spend
                &&& spends_shown(
                    view.inputs@,
                    binding.funding_transaction_id,
                    binding.funding_output_index,
                )
                &&& maybe(view.spender) == Some(binding.terminal_transaction_id)
            };
            &&& (read is Ok <==> case_1 || case_2)
            &&& read is Ok && case_1 ==> {
                &&& given == "elementsd:output:"@ + binding.terminal_transaction_id + ":settlement:"@ + read_settlement + ":"@ + decimal(
                    confirmations as nat,
                )
            }
            &&& read is Ok && case_2 ==> {
                &&& given == "elementsd:"@ + binding.terminal_transaction_id + ":"@ + decimal(
                    confirmations as nat,
                )
            }
        }),
{
}

fn is_spender(spender: &Option<String>, expected: &str) -> (is: bool)
    ensures
        is == (maybe(*spender) == Some(expected@)),
{
    match spender {
        Some(spender) => same_text(spender.as_str(), expected),
        None => false,
    }
}

/// Checks the end of a Liquid leg against what the local node shows, and names it.
pub fn verify_local_liquid_terminal(
    binding: &LiquidTerminalBinding,
    settlement_transaction_id: Option<&str>,
    view: &LiquidTerminalView,
    terminal_confirmations: u64,
) -> (identifier: Result<String, String>)
    ensures
        told_text(identifier) == liquid_terminal_reading(
            binding@,
            maybe_str(settlement_transaction_id),
            *view,
            terminal_confirmations,
        ),
{
    let suffix: String = decimal_text(terminal_confirmations);
    if !binding.requires_spend {
        if !same_bytes(&view.raw, &binding.funding_raw) {
            return Err(
                "terminal Liquid output differs from the contracted funding bytes".to_owned(),
            );
        }
        let settlement: &str = match settlement_transaction_id {
            Some(settlement) => settlement,
            None => {
                return Err(
                    "terminal Liquid output has no local destination settlement".to_owned(),
                );
            },
        };
        if !some_input_spends_shown(
            &view.settlement_inputs,
            binding.funding_transaction_id.as_str(),
            binding.funding_output_index,
        ) {
            return Err(
                "terminal Liquid destination settlement does not spend the contract outpoint".to_owned(),
            );
        }
        if !is_spender(&view.spender, settlement) {
            return Err("local elementsd reports another Liquid destination spender".to_owned());
        }
        let mut identifier: String = join3(
            "elementsd:output:",
            binding.terminal_transaction_id.as_str(),
            ":settlement:",
        );
        identifier.append(settlement);
        identifier.append(":");
        identifier.append(suffix.as_str());
        return Ok(identifier);
    }
    if !some_input_spends_shown(
        &view.inputs,
        binding.funding_transaction_id.as_str(),
        binding.funding_output_index,
    ) {
        return Err("terminal Liquid transaction does not spend the contract outpoint".to_owned());
    }
    if !is_spender(&view.spender, binding.terminal_transaction_id.as_str()) {
        return Err("local elementsd reports another Liquid funding spender".to_owned());
    }
    let mut identifier: String = join3("elementsd:", binding.terminal_transaction_id.as_str(), ":");
    identifier.append(suffix.as_str());
    Ok(identifier)
}

/// The list, the payment hash, the status and the direction that a Lightning check looks for.
pub open spec fn lightning_terms(check: LightningTerminalCheck) -> (
    Seq<char>,
    Seq<char>,
    Seq<char>,
    Seq<char>,
) {
    match check {
        LightningTerminalCheck::IncomingInvoice { payment_hash } => (
            "invoices"@,
            payment_hash@,
            "paid"@,
            "incoming"@,
        ),
        LightningTerminalCheck::OutgoingPayment { invoice, payment_hash, expected_status } => (
            "pays"@,
            payment_hash@,
            expected_status@,
            "outgoing"@,
        ),
    }
}

/// Whether a list has an entry of a payment in a status.
pub open spec fn lists_payment(items: Seq<JsonView>, hash: Seq<char>, status: Seq<char>) -> bool {
    exists|i: int|
        0 <= i < items.len() && member_text(#[trigger] items[i], "payment_hash"@) == Some(hash)
            && member_text(items[i], "status"@) == Some(status)
}

/// What the end of a Lightning leg reads as: the text that identifies it.
pub open spec fn lightning_terminal_reading(
    request: RailObservationRequest,
    settlement_reference: Seq<char>,
    check: Option<LightningTerminalCheck>,
    response: JsonView,
) -> Result<Seq<char>, Seq<char>> {
    match check {
        None => Err("terminal Lightning evidence has no local observation"@),
        Some(check) => {
            let (list, hash, status, direction) = lightning_terms(check);
            if request.reference@ != hash || settlement_reference != hash {
                Err("provider Close Lightning reference differs from the bound payment"@)
            } else if items_of(member(response, list)) is None || !lists_payment(
                items_of(member(response, list))->0,
                hash,
                status,
            ) {
                Err("peer CLN does not report the bound terminal Lightning state"@)
            } else {
                Ok("cln:"@ + direction + ":"@ + hash + ":"@ + status)
            }
        },
    }
}

fn some_payment(items: &Vec<Json>, hash: &str, status: &str) -> (found: bool)
    ensures
        found == lists_payment(items_view(items@), hash@, status@),
{
    proof {
        lemma_items_view(items@);
    }
    let mut i: usize = 0;
    while i < items.len()
        invariant
            i <= items@.len(),
            items_view(items@).len() == items@.len(),
            forall|j: int| 0 <= j < items@.len() ==> #[trigger] items_view(items@)[j] == items@[j]@,
            forall|j: int|
                0 <= j < i ==> !(member_text(#[trigger] items_view(items@)[j], "payment_hash"@)
                    == Some(hash@) && member_text(items_view(items@)[j], "status"@) == Some(
                    status@,
                )),
        decreases items@.len() - i,
    {
        assert(items_view(items@)[i as int] == items@[i as int]@);
        if items[i].says("payment_hash", hash) && items[i].says("status", status) {
            return true;
        }
        i = i + 1;
    }
    false
}

/// Checks the end of a Lightning leg against what the local node lists, and names it.
pub fn verify_local_lightning_terminal(
    request: &RailObservationRequest,
    settlement_reference: &str,
    lightning: &Option<LightningTerminalCheck>,
    response: &Json,
) -> (identifier: Result<String, String>)
    ensures
        told_text(identifier) == lightning_terminal_reading(
            *request,
            settlement_reference@,
            *lightning,
            response@,
        ),
{
    let (list, hash, status, direction): (&str, &str, &str, &str) = match lightning {
        None => {
            return Err("terminal Lightning evidence has no local observation".to_owned());
        },
        Some(LightningTerminalCheck::IncomingInvoice { payment_hash }) => (
            "invoices",
            payment_hash.as_str(),
            "paid",
            "incoming",
        ),
        Some(
            LightningTerminalCheck::OutgoingPayment { invoice: _, payment_hash, expected_status },
        ) => ("pays", payment_hash.as_str(), expected_status.as_str(), "outgoing"),
    };
    if !same_text(request.reference.as_str(), hash) || !same_text(settlement_reference, hash) {
        return Err("provider Close Lightning reference differs from the bound payment".to_owned());
    }
    let items: Option<&Vec<Json>> = match response.get(list) {
        Some(value) => value.as_array(),
        None => None,
    };
    let found: bool = match items {
        Some(items) => some_payment(items, hash, status),
        None => false,
    };
    if !found {
        return Err("peer CLN does not report the bound terminal Lightning state".to_owned());
    }
    let mut identifier: String = join3("cln:", direction, ":");
    identifier.append(hash);
    identifier.append(":");
    identifier.append(status);
    Ok(identifier)
}

/// What a reference claims before it is verified: the settlement, and for Bitcoin and Lightning the
/// digest and the view of the evidence.
pub open spec fn claims_reading(rail: Seq<char>, evidence: Map<Seq<char>, JsonView>) -> Result<
    (Seq<char>, Option<(Seq<char>, Seq<char>)>),
    Seq<char>,
> {
    match required_reading(evidence, "reference"@) {
        Err(message) => Err(message),
        Ok(reference) => if rail == "bitcoin"@ || rail == "lightning"@ {
            match required_reading(evidence, "artifact_sha256"@) {
                Err(message) => Err(message),
                Ok(artifact) => match required_reading(evidence, "view"@) {
                    Err(message) => Err(message),
                    Ok(view) => Ok((reference, Some((artifact, view)))),
                },
            }
        } else if rail == "liquid"@ {
            Ok((reference, None))
        } else {
            Err("terminal evidence requested an unsupported local rail"@)
        },
    }
}

/// What a reference claims before it is verified: it can be had exactly where every part that it
/// rests on can, and each part of it is the one that its name says.
pub proof fn law_claims_is_read_from_its_parts(rail: Seq<char>, evidence: Map<Seq<char>, JsonView>)
    ensures
        ({
            let read = claims_reading(rail, evidence);
            let reference = required_reading(evidence, "reference"@)->Ok_0;
            let given = read->Ok_0;
            let case_1 = {
                &&& (rail == "bitcoin"@ || rail == "lightning"@)
                &&& required_reading(evidence, "artifact_sha256"@) is Ok
                &&& required_reading(evidence, "view"@) is Ok
            };
            let case_2 = {
                &&& rail != "bitcoin"@
                &&& rail != "lightning"@
                &&& rail == "liquid"@
            };
            &&& read is Ok <==> {
                &&& required_reading(evidence, "reference"@) is Ok
                &&& case_1 || case_2
            }
            &&& read is Ok && case_1 ==> {
                &&& given.0 == reference
                &&& given.1 == Some(
                    (
                        required_reading(
                            evidence,
                            "artifact_sha256"@,
                        )->Ok_0, required_reading(evidence, "view"@)->Ok_0
                    ),
                )
            }
            &&& read is Ok && case_2 ==> {
                &&& given.0 == reference
                &&& given.1 is None
            }
        }),
{
}

/// What a reference claims before it is verified.
pub struct TerminalClaims {
    pub reference: String,
    pub artifact_and_view: Option<(String, String)>,
}

/// What a reference claims before it is verified.
pub fn terminal_claims(rail: &str, evidence: &JsonObject) -> (claims: Result<
    TerminalClaims,
    String,
>)
    ensures
        (match claims {
            Ok(claims) => Ok(
                (
                    claims.reference@,
                    match claims.artifact_and_view {
                        Some((artifact, view)) => Some((artifact@, view@)),
                        None => None,
                    },
                ),
            ),
            Err(message) => Err(message@),
        }) == claims_reading(rail@, evidence@),
{
    let reference: &str = required_string(evidence, "reference")?;
    if same_text(rail, "bitcoin") || same_text(rail, "lightning") {
        let artifact: &str = required_string(evidence, "artifact_sha256")?;
        let view: &str = required_string(evidence, "view")?;
        Ok(
            TerminalClaims {
                reference: reference.to_owned(),
                artifact_and_view: Some((artifact.to_owned(), view.to_owned())),
            },
        )
    } else if same_text(rail, "liquid") {
        Ok(TerminalClaims { reference: reference.to_owned(), artifact_and_view: None })
    } else {
        Err("terminal evidence requested an unsupported local rail".to_owned())
    }
}

/// What the evidence of a leg is, as the client takes it.
#[verifier::ext_equal]
pub struct LocalRailEvidenceView {
    pub artifact_sha256: Seq<char>,
    pub observed_at: u64,
    pub view: Seq<char>,
    pub settlement_reference: Seq<char>,
    pub verifier_pubkey: Option<Seq<char>>,
    pub producer_pubkey: Seq<char>,
    pub external_identifier: Seq<char>,
}

impl View for LocalRailEvidence {
    type V = LocalRailEvidenceView;

    open spec fn view(&self) -> LocalRailEvidenceView {
        LocalRailEvidenceView {
            artifact_sha256: self.artifact_sha256@,
            observed_at: self.observed_at,
            view: self.view@,
            settlement_reference: self.settlement_reference@,
            verifier_pubkey: maybe(self.verifier_pubkey),
            producer_pubkey: self.producer_pubkey@,
            external_identifier: self.external_identifier@,
        }
    }
}

/// What verified evidence of a leg reads as, once it is held against its producer.
pub open spec fn evidence_view_reading(
    producer: Seq<char>,
    evidence: Map<Seq<char>, JsonView>,
    settlement_reference: Seq<char>,
    artifact_sha256: Seq<char>,
    view: Seq<char>,
    external_identifier: Seq<char>,
) -> Result<LocalRailEvidenceView, Seq<char>> {
    match required_reading(evidence, "producer_pubkey"@) {
        Err(message) => Err(message),
        Ok(named) => if named != producer {
            Err("provider Close evidence names another producer"@)
        } else {
            let verifier = member(JsonView::Object(evidence), "verifier_pubkey"@);
            if !(verifier == Some(JsonView::Null) || text_of(verifier) is Some) {
                Err("provider Close evidence has an invalid verifier key"@)
            } else {
                match counted(evidence, "observed_at"@) {
                    None => Err("provider Close evidence has no observation time"@),
                    Some(observed_at) => Ok(
                        LocalRailEvidenceView {
                            artifact_sha256,
                            observed_at,
                            view,
                            settlement_reference,
                            verifier_pubkey: text_of(verifier),
                            producer_pubkey: named,
                            external_identifier,
                        },
                    ),
                }
            }
        },
    }
}

/// What verified evidence of a leg reads as, once it is held against its producer: it can be had
/// exactly where every part that it rests on can, and each part of it is the one that its name
/// says.
pub proof fn law_evidence_view_is_read_from_its_parts(
    producer: Seq<char>,
    evidence: Map<Seq<char>, JsonView>,
    settlement_reference: Seq<char>,
    artifact_sha256: Seq<char>,
    view: Seq<char>,
    external_identifier: Seq<char>,
)
    ensures
        ({
            let read = evidence_view_reading(
                producer,
                evidence,
                settlement_reference,
                artifact_sha256,
                view,
                external_identifier,
            );
            let named = required_reading(evidence, "producer_pubkey"@)->Ok_0;
            let verifier = member(JsonView::Object(evidence), "verifier_pubkey"@);
            let given = read->Ok_0;
            &&& read is Ok <==> {
                &&& required_reading(evidence, "producer_pubkey"@) is Ok
                &&& named == producer
                &&& (verifier == Some(JsonView::Null) || text_of(verifier) is Some)
                &&& counted(evidence, "observed_at"@) is Some
            }
            &&& read is Ok ==> {
                &&& given.artifact_sha256 == artifact_sha256
                &&& given.observed_at == counted(evidence, "observed_at"@)->0
                &&& given.view == view
                &&& given.settlement_reference == settlement_reference
                &&& given.verifier_pubkey == text_of(verifier)
                &&& given.producer_pubkey == named
                &&& given.external_identifier == external_identifier
            }
        }),
{
}

/// The evidence of a leg, once the local nodes have borne it out.
pub fn local_terminal_rail_evidence(
    close: &Event,
    evidence: &JsonObject,
    settlement_reference: &str,
    artifact_sha256: &str,
    view: &str,
    external_identifier: &str,
) -> (assembled: Result<LocalRailEvidence, String>)
    ensures
        (match assembled {
            Ok(assembled) => Ok(assembled@),
            Err(message) => Err(message@),
        }) == evidence_view_reading(
            close.pubkey@,
            evidence@,
            settlement_reference@,
            artifact_sha256@,
            view@,
            external_identifier@,
        ),
{
    let producer: &str = required_string(evidence, "producer_pubkey")?;
    if !same_text(producer, close.pubkey.as_str()) {
        return Err("provider Close evidence names another producer".to_owned());
    }
    let verifier_pubkey: Option<String> = match evidence.get("verifier_pubkey") {
        Some(value) => {
            proof {
                lemma_kinds(*value);
            }
            match value {
                Json::Null => None,
                Json::Text(text) => Some(text.clone()),
                _ => {
                    return Err("provider Close evidence has an invalid verifier key".to_owned());
                },
            }
        },
        None => {
            return Err("provider Close evidence has an invalid verifier key".to_owned());
        },
    };
    match evidence.u64_at("observed_at") {
        None => Err("provider Close evidence has no observation time".to_owned()),
        Some(observed_at) => Ok(
            LocalRailEvidence {
                artifact_sha256: artifact_sha256.to_owned(),
                observed_at,
                view: view.to_owned(),
                settlement_reference: settlement_reference.to_owned(),
                verifier_pubkey,
                producer_pubkey: producer.to_owned(),
                external_identifier: external_identifier.to_owned(),
            },
        ),
    }
}

/// A leg on Bitcoin is accepted as ended only where the local node shows the end: the contracted
/// bytes and a settlement that spends them, or a spend of the outpoint which is no longer unspent.
pub proof fn law_bitcoin_end_is_shown_locally(
    binding: TerminalBindingView,
    settlement: Option<Seq<char>>,
    view: BitcoinTerminalView,
    confirmations: u64,
)
    requires
        bitcoin_terminal_reading(binding, settlement, view, confirmations) is Ok,
    ensures
        binding.requires_spend ==> !view.unspent && exists|i: int|
            0 <= i < view.inputs@.len() && #[trigger] view.inputs@[i].previous_output
                == binding.funding_output_index,
        !binding.requires_spend ==> view.raw@ == binding.funding_raw && settlement is Some
            && exists|i: int|
            0 <= i < view.settlement_inputs@.len()
                && #[trigger] view.settlement_inputs@[i].previous_output
                == binding.funding_output_index,
{
    let wire = txid_wire_reading(binding.funding_transaction_id)->Ok_0;
    if binding.requires_spend {
        let i = choose|i: int|
            0 <= i < view.inputs@.len() && (#[trigger] view.inputs@[i]).previous_txid@ == wire
                && view.inputs@[i].previous_output == binding.funding_output_index;
        assert(view.inputs@[i].previous_output == binding.funding_output_index);
    } else {
        let i = choose|i: int|
            0 <= i < view.settlement_inputs@.len()
                && (#[trigger] view.settlement_inputs@[i]).previous_txid@ == wire
                && view.settlement_inputs@[i].previous_output == binding.funding_output_index;
        assert(view.settlement_inputs@[i].previous_output == binding.funding_output_index);
    }
}

/// A Lightning settlement that a close names is the one that was bound: the request, the settlement and
/// the local check are of one payment hash, and the local node lists a payment of that hash in the
/// expected state, among its invoices where it was received and among its payments where it was
/// sent.
pub proof fn law_lightning_end_is_shown_locally(
    request: RailObservationRequest,
    settlement_reference: Seq<char>,
    check: Option<LightningTerminalCheck>,
    response: JsonView,
)
    ensures
        ({
            let read = lightning_terminal_reading(request, settlement_reference, check, response);
            match check {
                None => read is Err,
                Some(LightningTerminalCheck::IncomingInvoice { payment_hash }) => {
                    &&& read is Ok <==> {
                        &&& request.reference@ == payment_hash@
                        &&& settlement_reference == payment_hash@
                        &&& items_of(member(response, "invoices"@)) is Some
                        &&& lists_payment(
                            items_of(member(response, "invoices"@))->0,
                            payment_hash@,
                            "paid"@,
                        )
                    }
                    &&& read is Ok ==> read->Ok_0 == "cln:"@ + "incoming"@ + ":"@ + payment_hash@
                        + ":"@ + "paid"@
                },
                Some(
                    LightningTerminalCheck::OutgoingPayment {
                        invoice,
                        payment_hash,
                        expected_status,
                    },
                ) => {
                    &&& read is Ok <==> {
                        &&& request.reference@ == payment_hash@
                        &&& settlement_reference == payment_hash@
                        &&& items_of(member(response, "pays"@)) is Some
                        &&& lists_payment(
                            items_of(member(response, "pays"@))->0,
                            payment_hash@,
                            expected_status@,
                        )
                    }
                    &&& read is Ok ==> read->Ok_0 == "cln:"@ + "outgoing"@ + ":"@ + payment_hash@
                        + ":"@ + expected_status@
                },
            }
        }),
{
}

} // verus!
