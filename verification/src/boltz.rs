//! Sessions with another client: it broadcasts a lock that was prepared and approved here.

use vstd::prelude::*;
use crate::amount::OUTPUT_AMOUNT_SAT;
use crate::contract::{
    bounded_u32_member, bounded_u32_reading, find_leg_entry, known_transaction_reading, leg_entry,
    required_reading, required_string, verify_known_bitcoin_transaction,
};
use crate::control::said;
use crate::json::{
    Json, JsonObject, JsonView, items_of, items_view, lemma_items_view, member, member_text,
    members_of, no_members, number_doc, text_doc,
};
use crate::machine::{
    Action, ActionView, INVOICE_EXPIRY_SECONDS, Reply, ReplyView, Task, effect_details, effect_doc,
    lemma_milestone, lemma_ranks_rise, perform, perform_with, perform_with_four, perform_with_three,
    perform_with_two, wrong_reply, wrong_reply_text,
};
use crate::record::{Event, RecordKinds, profile_reading, record_profile};
use crate::text::{decimal, decimal_text, join, join3, same_text, told};

verus! {

/// The number of the refund key of a client.
pub open spec fn key_index_reading(client: Seq<char>) -> Result<u32, Seq<char>> {
    if client == "go"@ {
        Ok(20)
    } else if client == "web"@ {
        Ok(21)
    } else {
        Err("IMMORTAL_LAB_BOLTZ_ADAPTER_CLIENT must be go or web"@)
    }
}

/// The number of the refund key of a client: it can be had exactly where every part that it rests
/// on can, and each part of it is the one that its name says.
pub proof fn law_key_index_is_read_from_its_parts(client: Seq<char>)
    ensures
        ({
            let read = key_index_reading(client);
            let given = read->Ok_0;
            let case_1 = client == "go"@;
            let case_2 = {
                &&& client != "go"@
                &&& client == "web"@
            };
            &&& (read is Ok <==> case_1 || case_2)
            &&& read is Ok && case_1 ==> {
                &&& given == 20
            }
            &&& read is Ok && case_2 ==> {
                &&& given == 21
            }
        }),
{
}

/// The number of the refund key of a client.
pub fn adapter_key_index(client: &str) -> (index: Result<u32, String>)
    ensures
        told(index) == key_index_reading(client@),
{
    if same_text(client, "go") {
        Ok(20)
    } else if same_text(client, "web") {
        Ok(21)
    } else {
        Err("IMMORTAL_LAB_BOLTZ_ADAPTER_CLIENT must be go or web".to_owned())
    }
}

/// Two texts, or a message.
pub open spec fn told_pair(outcome: Result<(String, String), String>) -> Result<
    (Seq<char>, Seq<char>),
    Seq<char>,
> {
    match outcome {
        Ok((first, second)) => Ok((first@, second@)),
        Err(message) => Err(message@),
    }
}

/// The path that a session is finalized under.
pub open spec fn finalize_path(session_id: Seq<char>) -> Seq<char> {
    "/v2/swap/submarine/"@ + session_id + "/finalize"@
}

fn finalize_path_text(session_id: &str) -> (path: String)
    ensures
        path@ == finalize_path(session_id@),
{
    join3("/v2/swap/submarine/", session_id, "/finalize")
}

/// What another client needs of a contract: the refund key and the output that funds it.
pub open spec fn adapter_terms_reading(contract: JsonView) -> Result<(Seq<char>, u32), Seq<char>> {
    match members_of(leg_entry(contract, "legs"@, "source"@)) {
        None => Err("Boltz adapter Contract has no source leg"@),
        Some(leg) => match required_reading(leg, "refund_public_key"@) {
            Err(message) => Err(message),
            Ok(key) => match members_of(leg_entry(contract, "verifier_inputs"@, "source"@)) {
                None => Err("Boltz adapter Contract has no source verifier"@),
                Some(verifier) => match bounded_u32_reading(verifier, "output_index"@) {
                    Err(message) => Err(message),
                    Ok(index) => Ok((key, index)),
                },
            },
        },
    }
}

/// What another client needs of a contract: it can be had exactly where every part that it rests on
/// can, and each part of it is the one that its name says.
pub proof fn law_adapter_terms_is_read_from_its_parts(contract: JsonView)
    ensures
        ({
            let read = adapter_terms_reading(contract);
            let leg = members_of(leg_entry(contract, "legs"@, "source"@))->0;
            let verifier = members_of(leg_entry(contract, "verifier_inputs"@, "source"@))->0;
            let given = read->Ok_0;
            &&& read is Ok <==> {
                &&& members_of(leg_entry(contract, "legs"@, "source"@)) is Some
                &&& required_reading(leg, "refund_public_key"@) is Ok
                &&& members_of(leg_entry(contract, "verifier_inputs"@, "source"@)) is Some
                &&& bounded_u32_reading(verifier, "output_index"@) is Ok
            }
            &&& read is Ok ==> {
                &&& given.0 == required_reading(leg, "refund_public_key"@)->Ok_0
                &&& given.1 == bounded_u32_reading(verifier, "output_index"@)->Ok_0
            }
        }),
{
}

fn find_members<'a>(contract: &'a Json, list: &str) -> (found: Option<&'a JsonObject>)
    ensures
        (match found {
            Some(members) => Some(members@),
            None => None,
        }) == members_of(leg_entry(contract@, list@, "source"@)),
{
    match find_leg_entry(contract, list, "source") {
        Some(entry) => entry.as_object(),
        None => None,
    }
}

/// What another client needs of a contract: the refund key and the output that funds it.
pub fn adapter_terms(contract: &Json) -> (terms: Result<(String, u32), String>)
    ensures
        (match terms {
            Ok((key, index)) => Ok((key@, index)),
            Err(message) => Err(message@),
        }) == adapter_terms_reading(contract@),
{
    let leg: &JsonObject = match find_members(contract, "legs") {
        Some(leg) => leg,
        None => {
            return Err("Boltz adapter Contract has no source leg".to_owned());
        },
    };
    let key: &str = required_string(leg, "refund_public_key")?;
    let verifier: &JsonObject = match find_members(contract, "verifier_inputs") {
        Some(verifier) => verifier,
        None => {
            return Err("Boltz adapter Contract has no source verifier".to_owned());
        },
    };
    let index: u32 = bounded_u32_member(verifier, "output_index")?;
    Ok((key.to_owned(), index))
}

/// The contract records that each side has signed, from those found so far.
pub open spec fn roles_reading(
    records: Seq<Event>,
    kind: u16,
    requester: Option<Seq<char>>,
    provider: Option<Seq<char>>,
) -> Result<(Option<Seq<char>>, Option<Seq<char>>), Seq<char>>
    decreases records.len(),
{
    if records.len() == 0 {
        Ok((requester, provider))
    } else if records[0].kind != kind {
        roles_reading(records.drop_first(), kind, requester, provider)
    } else {
        match profile_reading(records[0].content@) {
            Err(message) => Err(message),
            Ok(profile) => if said(profile, "signer_role"@) == Some("requester"@) && requester
                is None {
                roles_reading(records.drop_first(), kind, Some(records[0].id@), provider)
            } else if said(profile, "signer_role"@) == Some("provider"@) && provider is None {
                roles_reading(records.drop_first(), kind, requester, Some(records[0].id@))
            } else {
                Err("Boltz adapter Contracts have duplicate or invalid roles"@)
            },
        }
    }
}

/// The contract records that the two sides have signed.
pub open spec fn approval_reading(records: Seq<Event>, kind: u16) -> Result<
    (Seq<char>, Seq<char>),
    Seq<char>,
> {
    match roles_reading(records, kind, None, None) {
        Err(message) => Err(message),
        Ok((Some(requester), Some(provider))) => Ok((requester, provider)),
        Ok(_) => Err("Boltz adapter approval lacks bilateral Contracts"@),
    }
}

/// The contract records that the two sides have signed.
pub fn approval_contract_ids(records: &Vec<Event>, kind: u16) -> (ids: Result<
    (String, String),
    String,
>)
    ensures
        told_pair(ids) == approval_reading(records@, kind),
{
    let mut requester: Option<String> = None;
    let mut provider: Option<String> = None;
    let mut i: usize = 0;
    assert(records@.subrange(0, records@.len() as int) =~= records@);
    while i < records.len()
        invariant
            i <= records@.len(),
            roles_reading(records@, kind, None, None) == roles_reading(
                records@.subrange(i as int, records@.len() as int),
                kind,
                crate::text::maybe(requester),
                crate::text::maybe(provider),
            ),
        decreases records@.len() - i,
    {
        let ghost rest = records@.subrange(i as int, records@.len() as int);
        assert(rest[0] == records@[i as int]);
        assert(rest.drop_first() =~= records@.subrange(i + 1, records@.len() as int));
        if records[i].kind == kind {
            let profile: JsonObject = record_profile(&records[i])?;
            if profile.says("signer_role", "requester") && requester.is_none() {
                requester = Some(records[i].id.clone());
            } else if profile.says("signer_role", "provider") && provider.is_none() {
                provider = Some(records[i].id.clone());
            } else {
                return Err("Boltz adapter Contracts have duplicate or invalid roles".to_owned());
            }
        }
        i = i + 1;
    }
    match (requester, provider) {
        (Some(requester), Some(provider)) => Ok((requester, provider)),
        _ => Err("Boltz adapter approval lacks bilateral Contracts".to_owned()),
    }
}

/// Whether a commitment is to the requester's refund.
pub open spec fn is_requester_refund() -> spec_fn(JsonView) -> bool {
    |commitment: JsonView|
        member_text(commitment, "participant_role"@) == Some("requester"@) && member_text(
            commitment,
            "path"@,
        ) == Some("refund"@)
}

/// The mode and the digest of the one exit that the requester can refund themselves with.
pub open spec fn exit_commitment_reading(contract: JsonView) -> Result<
    (Seq<char>, Seq<char>),
    Seq<char>,
> {
    match items_of(member(contract, "exit_package_commitments"@)) {
        None => Err("Boltz adapter Contract has no exit commitments"@),
        Some(commitments) => {
            let matching = commitments.filter(is_requester_refund());
            if matching.len() != 1 {
                Err("Boltz adapter Contract has no unique requester refund exit"@)
            } else {
                match members_of(Some(matching[0])) {
                    None => Err("Boltz adapter exit commitment is not an object"@),
                    Some(commitment) => match required_reading(commitment, "package_mode"@) {
                        Err(message) => Err(message),
                        Ok(mode) => match required_reading(commitment, "package_sha256"@) {
                            Err(message) => Err(message),
                            Ok(sha256) => Ok((mode, sha256)),
                        },
                    },
                }
            }
        },
    }
}

/// The mode and the digest of the one exit that the requester can refund themselves with: it can be
/// had exactly where every part that it rests on can, and each part of it is the one that its name
/// says.
pub proof fn law_exit_commitment_is_read_from_its_parts(contract: JsonView)
    ensures
        ({
            let read = exit_commitment_reading(contract);
            let matching = items_of(
                member(contract, "exit_package_commitments"@),
            )->0.filter(is_requester_refund());
            let commitment = members_of(Some(matching[0]))->0;
            let given = read->Ok_0;
            &&& read is Ok <==> {
                &&& items_of(member(contract, "exit_package_commitments"@)) is Some
                &&& matching.len() == 1
                &&& members_of(Some(matching[0])) is Some
                &&& required_reading(commitment, "package_mode"@) is Ok
                &&& required_reading(commitment, "package_sha256"@) is Ok
            }
            &&& read is Ok ==> {
                &&& given.0 == required_reading(commitment, "package_mode"@)->Ok_0
                &&& given.1 == required_reading(commitment, "package_sha256"@)->Ok_0
            }
        }),
{
}

proof fn lemma_matching(commitments: Seq<JsonView>, upto: int)
    requires
        0 <= upto < commitments.len(),
    ensures
        commitments.subrange(0, upto + 1).filter(is_requester_refund()) == (
        if is_requester_refund()(commitments[upto]) {
            commitments.subrange(0, upto).filter(is_requester_refund()).push(commitments[upto])
        } else {
            commitments.subrange(0, upto).filter(is_requester_refund())
        }),
{
    reveal(Seq::filter);
    let longer = commitments.subrange(0, upto + 1);
    assert(longer.drop_last() =~= commitments.subrange(0, upto));
    assert(longer.last() == commitments[upto]);
}

/// The mode and the digest of the one exit that the requester can refund themselves with.
pub fn approval_exit_commitment(contract: &Json) -> (exit: Result<(String, String), String>)
    ensures
        told_pair(exit) == exit_commitment_reading(contract@),
{
    let commitments: &Vec<Json> = match contract.get("exit_package_commitments") {
        Some(value) => match value.as_array() {
            Some(commitments) => commitments,
            None => {
                return Err("Boltz adapter Contract has no exit commitments".to_owned());
            },
        },
        None => {
            return Err("Boltz adapter Contract has no exit commitments".to_owned());
        },
    };
    proof {
        lemma_items_view(commitments@);
    }
    let ghost shown = items_view(commitments@);
    let mut found: Option<usize> = None;
    let mut count: usize = 0;
    let mut i: usize = 0;
    proof {
        reveal(Seq::filter);
        assert(shown.subrange(0, 0) =~= Seq::<JsonView>::empty());
        assert(shown.subrange(0, 0).filter(is_requester_refund()).len() == 0);
    }
    while i < commitments.len()
        invariant
            i <= commitments@.len(),
            count <= i,
            shown == items_view(commitments@),
            shown.len() == commitments@.len(),
            forall|j: int| 0 <= j < commitments@.len() ==> #[trigger] shown[j] == commitments@[j]@,
            count == shown.subrange(0, i as int).filter(is_requester_refund()).len(),
            match found {
                Some(place) => {
                    &&& place < i
                    &&& count > 0
                    &&& shown.subrange(0, i as int).filter(is_requester_refund()).last()
                        == shown[place as int]
                },
                None => count == 0,
            },
        decreases commitments@.len() - i,
    {
        assert(shown[i as int] == commitments@[i as int]@);
        proof {
            lemma_matching(shown, i as int);
        }
        if commitments[i].says("participant_role", "requester") && commitments[i].says(
            "path",
            "refund",
        ) {
            found = Some(i);
            count = count + 1;
        }
        i = i + 1;
    }
    assert(shown.subrange(0, i as int) =~= shown);
    let place: usize = match found {
        Some(place) if count == 1 => place,
        _ => {
            return Err("Boltz adapter Contract has no unique requester refund exit".to_owned());
        },
    };
    assert(shown.filter(is_requester_refund())[0] == shown[place as int]);
    assert(shown[place as int] == commitments@[place as int]@);
    let commitment: &JsonObject = match commitments[place].as_object() {
        Some(commitment) => commitment,
        None => {
            return Err("Boltz adapter exit commitment is not an object".to_owned());
        },
    };
    let mode: &str = required_string(commitment, "package_mode")?;
    let sha256: &str = required_string(commitment, "package_sha256")?;
    Ok((mode.to_owned(), sha256.to_owned()))
}

/// The phases of a session of the adapter, in their order.
#[derive(Clone, Copy, Debug, PartialEq, Eq, Structural)]
pub enum BoltzPhase {
    ClearControls,
    FundWallet,
    CreateInvoice,
    PrepareOrder,
    TakeFunding,
    ReadSession,
    StorePrepared,
    AwaitFinalize,
    HashFunding,
    FinalizeNegotiation,
    AwaitAccepted,
    AwaitLockTerms,
    AuthorizeFunding,
    KeepAuthorization,
    SayVerified,
    KeepReady,
    ReadRecords,
    StoreApproval,
    AwaitBroadcast,
    RequireFundingKnown,
    RecordFunding,
    Funded,
}

impl BoltzPhase {
    /// The place of the phase in their order.
    pub open spec fn rank(self) -> int {
        match self {
            BoltzPhase::ClearControls => 0,
            BoltzPhase::FundWallet => 1,
            BoltzPhase::CreateInvoice => 2,
            BoltzPhase::PrepareOrder => 3,
            BoltzPhase::TakeFunding => 4,
            BoltzPhase::ReadSession => 5,
            BoltzPhase::StorePrepared => 6,
            BoltzPhase::AwaitFinalize => 7,
            BoltzPhase::HashFunding => 8,
            BoltzPhase::FinalizeNegotiation => 9,
            BoltzPhase::AwaitAccepted => 10,
            BoltzPhase::AwaitLockTerms => 11,
            BoltzPhase::AuthorizeFunding => 12,
            BoltzPhase::KeepAuthorization => 13,
            BoltzPhase::SayVerified => 14,
            BoltzPhase::KeepReady => 15,
            BoltzPhase::ReadRecords => 16,
            BoltzPhase::StoreApproval => 17,
            BoltzPhase::AwaitBroadcast => 18,
            BoltzPhase::RequireFundingKnown => 19,
            BoltzPhase::RecordFunding => 20,
            BoltzPhase::Funded => 21,
        }
    }
}

/// A submarine swap whose lock another client broadcasts once it has been approved.
pub struct BoltzRun {
    pub phase: BoltzPhase,
    pub client: String,
    pub kinds: RecordKinds,
    pub payment_hash: String,
    pub invoice: String,
    pub order_id: String,
    pub contract: Json,
    pub funding_id: String,
    pub funding_output: u32,
    pub funding_hex: String,
    pub session_id: String,
    pub refund_public_key: String,
    pub output_index: u32,
    pub finalize_request: Json,
    pub funding_sha256: String,
    pub snapshot_sha256: String,
    pub requester_contract_id: String,
    pub provider_contract_id: String,
    pub exit_mode: String,
    pub exit_sha256: String,
}

/// A submarine swap whose lock another client broadcasts once it has been approved.
#[verifier::ext_equal]
pub struct BoltzRunView {
    pub phase: BoltzPhase,
    pub client: Seq<char>,
    pub kinds: RecordKinds,
    pub payment_hash: Seq<char>,
    pub invoice: Seq<char>,
    pub order_id: Seq<char>,
    pub contract: JsonView,
    pub funding_id: Seq<char>,
    pub funding_output: u32,
    pub funding_hex: Seq<char>,
    pub session_id: Seq<char>,
    pub refund_public_key: Seq<char>,
    pub output_index: u32,
    pub finalize_request: JsonView,
    pub funding_sha256: Seq<char>,
    pub snapshot_sha256: Seq<char>,
    pub requester_contract_id: Seq<char>,
    pub provider_contract_id: Seq<char>,
    pub exit_mode: Seq<char>,
    pub exit_sha256: Seq<char>,
}

impl View for BoltzRun {
    type V = BoltzRunView;

    open spec fn view(&self) -> BoltzRunView {
        BoltzRunView {
            phase: self.phase,
            client: self.client@,
            kinds: self.kinds,
            payment_hash: self.payment_hash@,
            invoice: self.invoice@,
            order_id: self.order_id@,
            contract: self.contract@,
            funding_id: self.funding_id@,
            funding_output: self.funding_output,
            funding_hex: self.funding_hex@,
            session_id: self.session_id@,
            refund_public_key: self.refund_public_key@,
            output_index: self.output_index,
            finalize_request: self.finalize_request@,
            funding_sha256: self.funding_sha256@,
            snapshot_sha256: self.snapshot_sha256@,
            requester_contract_id: self.requester_contract_id@,
            provider_contract_id: self.provider_contract_id@,
            exit_mode: self.exit_mode@,
            exit_sha256: self.exit_sha256@,
        }
    }
}

/// What a session of the adapter asks for next.
pub open spec fn boltz_action(run: BoltzRunView) -> ActionView {
    match run.phase {
        BoltzPhase::ClearControls => ActionView::Perform(Task::ClearControls, seq![run.client]),
        BoltzPhase::FundWallet => ActionView::Perform(Task::FundWallet, seq![]),
        BoltzPhase::CreateInvoice => ActionView::Perform(
            Task::CreateInvoice,
            seq![
                "immortal-boltz_"@ + run.client,
                decimal(OUTPUT_AMOUNT_SAT as nat),
                "Immortal Boltz adapter process gate"@,
                decimal(INVOICE_EXPIRY_SECONDS as nat),
            ],
        ),
        BoltzPhase::PrepareOrder => ActionView::Perform(
            Task::PrepareOrder,
            seq![run.payment_hash, run.invoice],
        ),
        BoltzPhase::TakeFunding => ActionView::Perform(Task::TakeFunding, seq![]),
        BoltzPhase::ReadSession => ActionView::Perform(Task::ReadSession, seq![]),
        BoltzPhase::StorePrepared => ActionView::Store("prepared"@, prepared_doc(run)),
        BoltzPhase::AwaitFinalize => ActionView::Perform(
            Task::AwaitControl,
            seq!["finalize-request"@],
        ),
        BoltzPhase::HashFunding => ActionView::Perform(Task::HashFunding, seq![run.funding_hex]),
        BoltzPhase::FinalizeNegotiation => ActionView::Perform(
            Task::FinalizeNegotiation,
            seq![run.session_id],
        ),
        BoltzPhase::AwaitAccepted => ActionView::AwaitState("accepted"@),
        BoltzPhase::AwaitLockTerms => ActionView::AwaitState("lock_terms_ready"@),
        BoltzPhase::AuthorizeFunding => ActionView::Perform(
            Task::AuthorizeFunding,
            seq![run.invoice],
        ),
        BoltzPhase::KeepAuthorization => ActionView::Perform(Task::KeepAuthorization, seq![]),
        BoltzPhase::SayVerified => ActionView::Say("requester_verification_passed"@, no_members()),
        BoltzPhase::KeepReady => ActionView::Keep(
            "funding_execution_ready"@,
            effect_doc(run.funding_id),
        ),
        BoltzPhase::ReadRecords => ActionView::Perform(Task::ReadRecords, seq![]),
        BoltzPhase::StoreApproval => ActionView::Store("approval"@, approval_doc(run)),
        BoltzPhase::AwaitBroadcast => ActionView::Perform(Task::AwaitControl, seq!["broadcast"@]),
        BoltzPhase::RequireFundingKnown => ActionView::Perform(
            Task::RequireKnownTransaction,
            seq!["boltz-adapter-funding"@, run.funding_id, run.funding_hex],
        ),
        BoltzPhase::RecordFunding => ActionView::Perform(
            Task::RecordFundingEffect,
            seq![run.funding_id, run.funding_hex, "text"@],
        ),
        BoltzPhase::Funded => ActionView::Finish,
    }
}

/// Where a reply takes a session of the adapter.
pub open spec fn boltz_step(run: BoltzRunView, reply: ReplyView) -> Result<
    BoltzRunView,
    Seq<char>,
> {
    match (run.phase, reply) {
        (BoltzPhase::ClearControls, ReplyView::Done) => Ok(
            BoltzRunView { phase: BoltzPhase::FundWallet, ..run },
        ),
        (BoltzPhase::FundWallet, ReplyView::Done) => Ok(
            BoltzRunView { phase: BoltzPhase::CreateInvoice, ..run },
        ),
        (BoltzPhase::CreateInvoice, ReplyView::Texts(texts)) => {
            if texts.len() != 2 {
                Err(wrong_reply())
            } else {
                Ok(
                    BoltzRunView {
                        phase: BoltzPhase::PrepareOrder,
                        payment_hash: texts[0],
                        invoice: texts[1],
                        ..run
                    },
                )
            }
        },
        (BoltzPhase::PrepareOrder, ReplyView::Session { order_id, contract }) => Ok(
            BoltzRunView {
                phase: BoltzPhase::TakeFunding,
                order_id: order_id,
                contract: contract,
                ..run
            },
        ),
        (BoltzPhase::TakeFunding, ReplyView::Funding { receipt, id, output_index, hex }) => Ok(
            BoltzRunView {
                phase: BoltzPhase::ReadSession,
                funding_id: id,
                funding_output: output_index,
                funding_hex: hex,
                ..run
            },
        ),
        (BoltzPhase::TakeFunding, ReplyView::Done) => Err(
            "Boltz adapter preparation produced no funding transaction"@,
        ),
        (BoltzPhase::ReadSession, ReplyView::Texts(texts)) => {
            if texts.len() != 1 {
                Err(wrong_reply())
            } else {
                match adapter_terms_reading(run.contract) {
                    Err(message) => Err(message),
                    Ok(terms) => Ok(
                        BoltzRunView {
                            phase: BoltzPhase::StorePrepared,
                            session_id: texts[0],
                            refund_public_key: terms.0,
                            output_index: terms.1,
                            ..run
                        },
                    ),
                }
            }
        },
        (BoltzPhase::StorePrepared, ReplyView::Done) => Ok(
            BoltzRunView { phase: BoltzPhase::AwaitFinalize, ..run },
        ),
        (BoltzPhase::AwaitFinalize, ReplyView::Document(Some(document))) => Ok(
            BoltzRunView { phase: BoltzPhase::HashFunding, finalize_request: document, ..run },
        ),
        (BoltzPhase::HashFunding, ReplyView::Texts(texts)) => {
            if texts.len() != 1 {
                Err(wrong_reply())
            } else if run.finalize_request != finalize_doc(run, texts[0]) {
                Err("Boltz adapter finalization request changed the prepared funding"@)
            } else {
                Ok(
                    BoltzRunView {
                        phase: BoltzPhase::FinalizeNegotiation,
                        funding_sha256: texts[0],
                        ..run
                    },
                )
            }
        },
        (BoltzPhase::FinalizeNegotiation, ReplyView::Session { order_id, contract }) => Ok(
            BoltzRunView {
                phase: BoltzPhase::AwaitAccepted,
                order_id: order_id,
                contract: contract,
                ..run
            },
        ),
        (BoltzPhase::AwaitAccepted, ReplyView::Record { .. }) => Ok(
            BoltzRunView { phase: BoltzPhase::AwaitLockTerms, ..run },
        ),
        (BoltzPhase::AwaitLockTerms, ReplyView::Record { .. }) => Ok(
            BoltzRunView { phase: BoltzPhase::AuthorizeFunding, ..run },
        ),
        (BoltzPhase::AuthorizeFunding, ReplyView::Texts(texts)) => {
            if texts.len() != 1 {
                Err(wrong_reply())
            } else {
                Ok(
                    BoltzRunView {
                        phase: BoltzPhase::KeepAuthorization,
                        snapshot_sha256: texts[0],
                        ..run
                    },
                )
            }
        },
        (BoltzPhase::KeepAuthorization, ReplyView::Done) => Ok(
            BoltzRunView { phase: BoltzPhase::SayVerified, ..run },
        ),
        (BoltzPhase::SayVerified, ReplyView::Record { .. }) => Ok(
            BoltzRunView { phase: BoltzPhase::KeepReady, ..run },
        ),
        (BoltzPhase::KeepReady, ReplyView::Done) => Ok(
            BoltzRunView { phase: BoltzPhase::ReadRecords, ..run },
        ),
        (BoltzPhase::ReadRecords, ReplyView::Records(records)) => match approval_reading(
            records,
            run.kinds.contract,
        ) {
            Err(message) => Err(message),
            Ok(ids) => match exit_commitment_reading(run.contract) {
                Err(message) => Err(message),
                Ok(exit) => Ok(
                    BoltzRunView {
                        phase: BoltzPhase::StoreApproval,
                        requester_contract_id: ids.0,
                        provider_contract_id: ids.1,
                        exit_mode: exit.0,
                        exit_sha256: exit.1,
                        ..run
                    },
                ),
            },
        },
        (BoltzPhase::StoreApproval, ReplyView::Done) => Ok(
            BoltzRunView { phase: BoltzPhase::AwaitBroadcast, ..run },
        ),
        (BoltzPhase::AwaitBroadcast, ReplyView::Document(Some(broadcast))) => {
            if !acknowledges(broadcast, run) {
                Err("Boltz adapter broadcast acknowledgement changed session or txid"@)
            } else {
                Ok(BoltzRunView { phase: BoltzPhase::RequireFundingKnown, ..run })
            }
        },
        (BoltzPhase::RequireFundingKnown, ReplyView::Document(Some(report))) => match known_transaction_reading(
            report,
            run.funding_id,
            Some(run.funding_hex),
        ) {
            Err(message) => Err(message),
            Ok(known) => Ok(BoltzRunView { phase: BoltzPhase::RecordFunding, ..run }),
        },
        (BoltzPhase::RecordFunding, ReplyView::Done) => Ok(
            BoltzRunView { phase: BoltzPhase::Funded, ..run },
        ),
        _ => Err(wrong_reply()),
    }
}

impl BoltzRun {
    /// A session of the adapter before its first action.
    pub fn new(client: &str, kinds: RecordKinds) -> (run: BoltzRun)
        ensures
            run@.phase == BoltzPhase::ClearControls,
            run@.client == client@,
            run@.kinds == kinds,
            run@.payment_hash == Seq::<char>::empty(),
            run@.invoice == Seq::<char>::empty(),
            run@.order_id == Seq::<char>::empty(),
            run@.contract == JsonView::Null,
            run@.funding_id == Seq::<char>::empty(),
            run@.funding_output == 0,
            run@.funding_hex == Seq::<char>::empty(),
            run@.session_id == Seq::<char>::empty(),
            run@.refund_public_key == Seq::<char>::empty(),
            run@.output_index == 0,
            run@.finalize_request == JsonView::Null,
            run@.funding_sha256 == Seq::<char>::empty(),
            run@.snapshot_sha256 == Seq::<char>::empty(),
            run@.requester_contract_id == Seq::<char>::empty(),
            run@.provider_contract_id == Seq::<char>::empty(),
            run@.exit_mode == Seq::<char>::empty(),
            run@.exit_sha256 == Seq::<char>::empty(),
    {
        BoltzRun {
            phase: BoltzPhase::ClearControls,
            client: client.to_owned(),
            kinds,
            payment_hash: String::new(),
            invoice: String::new(),
            order_id: String::new(),
            contract: Json::null(),
            funding_id: String::new(),
            funding_output: 0,
            funding_hex: String::new(),
            session_id: String::new(),
            refund_public_key: String::new(),
            output_index: 0,
            finalize_request: Json::null(),
            funding_sha256: String::new(),
            snapshot_sha256: String::new(),
            requester_contract_id: String::new(),
            provider_contract_id: String::new(),
            exit_mode: String::new(),
            exit_sha256: String::new(),
        }
    }

    /// What the journey asks for next.
    pub fn action(&self) -> (action: Action)
        ensures
            action@ == boltz_action(self@),
    {
        match self.phase {
            BoltzPhase::ClearControls => perform_with(Task::ClearControls, self.client.as_str()),
            BoltzPhase::FundWallet => perform(Task::FundWallet),
            BoltzPhase::CreateInvoice => perform_with_four(
                Task::CreateInvoice,
                join("immortal-boltz_", self.client.as_str()).as_str(),
                decimal_text(OUTPUT_AMOUNT_SAT).as_str(),
                "Immortal Boltz adapter process gate",
                decimal_text(INVOICE_EXPIRY_SECONDS).as_str(),
            ),
            BoltzPhase::PrepareOrder => perform_with_two(
                Task::PrepareOrder,
                self.payment_hash.as_str(),
                self.invoice.as_str(),
            ),
            BoltzPhase::TakeFunding => perform(Task::TakeFunding),
            BoltzPhase::ReadSession => perform(Task::ReadSession),
            BoltzPhase::StorePrepared => Action::Store("prepared", self.prepared()),
            BoltzPhase::AwaitFinalize => perform_with(Task::AwaitControl, "finalize-request"),
            BoltzPhase::HashFunding => perform_with(Task::HashFunding, self.funding_hex.as_str()),
            BoltzPhase::FinalizeNegotiation => perform_with(
                Task::FinalizeNegotiation,
                self.session_id.as_str(),
            ),
            BoltzPhase::AwaitAccepted => Action::AwaitState("accepted"),
            BoltzPhase::AwaitLockTerms => Action::AwaitState("lock_terms_ready"),
            BoltzPhase::AuthorizeFunding => perform_with(
                Task::AuthorizeFunding,
                self.invoice.as_str(),
            ),
            BoltzPhase::KeepAuthorization => perform(Task::KeepAuthorization),
            BoltzPhase::SayVerified => Action::Say(
                "requester_verification_passed",
                JsonObject::new(),
            ),
            BoltzPhase::KeepReady => Action::Keep(
                "funding_execution_ready",
                effect_details(self.funding_id.as_str()),
            ),
            BoltzPhase::ReadRecords => perform(Task::ReadRecords),
            BoltzPhase::StoreApproval => Action::Store("approval", self.approval()),
            BoltzPhase::AwaitBroadcast => perform_with(Task::AwaitControl, "broadcast"),
            BoltzPhase::RequireFundingKnown => perform_with_three(
                Task::RequireKnownTransaction,
                "boltz-adapter-funding",
                self.funding_id.as_str(),
                self.funding_hex.as_str(),
            ),
            BoltzPhase::RecordFunding => perform_with_three(
                Task::RecordFundingEffect,
                self.funding_id.as_str(),
                self.funding_hex.as_str(),
                "text",
            ),
            BoltzPhase::Funded => Action::Finish,
        }
    }

    /// Takes a reply: the journey goes on to its next phase, or ends with a message.
    #[verifier::rlimit(80)]
    pub fn advance(&mut self, reply: Reply) -> (moved: Result<(), String>)
        ensures
            match moved {
                Ok(_) => boltz_step(old(self)@, reply@) == Ok::<BoltzRunView, Seq<char>>(
                    final(self)@,
                ),
                Err(message) => {
                    &&& boltz_step(old(self)@, reply@) == Err::<BoltzRunView, Seq<char>>(message@)
                    &&& final(self)@ == old(self)@
                },
            },
    {
        match (self.phase, reply) {
            (BoltzPhase::ClearControls, Reply::Done) => {
                self.phase = BoltzPhase::FundWallet;
                Ok(())
            },
            (BoltzPhase::FundWallet, Reply::Done) => {
                self.phase = BoltzPhase::CreateInvoice;
                Ok(())
            },
            (BoltzPhase::CreateInvoice, Reply::Texts(texts)) => {
                if texts.len() != 2 {
                    return Err(wrong_reply_text());
                }
                self.payment_hash = texts[0].clone();
                self.invoice = texts[1].clone();
                self.phase = BoltzPhase::PrepareOrder;
                Ok(())
            },
            (BoltzPhase::PrepareOrder, Reply::Session { order_id, contract }) => {
                self.order_id = order_id;
                self.contract = contract;
                self.phase = BoltzPhase::TakeFunding;
                Ok(())
            },
            (BoltzPhase::TakeFunding, Reply::Funding { receipt: _, id, output_index, hex }) => {
                self.funding_id = id;
                self.funding_output = output_index;
                self.funding_hex = hex;
                self.phase = BoltzPhase::ReadSession;
                Ok(())
            },
            (BoltzPhase::TakeFunding, Reply::Done) => {
                Err("Boltz adapter preparation produced no funding transaction".to_owned())
            },
            (BoltzPhase::ReadSession, Reply::Texts(texts)) => {
                if texts.len() != 1 {
                    return Err(wrong_reply_text());
                }
                let terms: (String, u32) = adapter_terms(&self.contract)?;
                self.session_id = texts[0].clone();
                self.refund_public_key = terms.0;
                self.output_index = terms.1;
                self.phase = BoltzPhase::StorePrepared;
                Ok(())
            },
            (BoltzPhase::StorePrepared, Reply::Done) => {
                self.phase = BoltzPhase::AwaitFinalize;
                Ok(())
            },
            (BoltzPhase::AwaitFinalize, Reply::Document(Some(document))) => {
                self.finalize_request = document;
                self.phase = BoltzPhase::HashFunding;
                Ok(())
            },
            (BoltzPhase::HashFunding, Reply::Texts(texts)) => {
                if texts.len() != 1 {
                    return Err(wrong_reply_text());
                }
                if !self.finalize_request.same(&self.finalize(texts[0].as_str())) {
                    return Err(
                        "Boltz adapter finalization request changed the prepared funding".to_owned(),
                    );
                }
                self.funding_sha256 = texts[0].clone();
                self.phase = BoltzPhase::FinalizeNegotiation;
                Ok(())
            },
            (BoltzPhase::FinalizeNegotiation, Reply::Session { order_id, contract }) => {
                self.order_id = order_id;
                self.contract = contract;
                self.phase = BoltzPhase::AwaitAccepted;
                Ok(())
            },
            (BoltzPhase::AwaitAccepted, Reply::Record(_)) => {
                self.phase = BoltzPhase::AwaitLockTerms;
                Ok(())
            },
            (BoltzPhase::AwaitLockTerms, Reply::Record(_)) => {
                self.phase = BoltzPhase::AuthorizeFunding;
                Ok(())
            },
            (BoltzPhase::AuthorizeFunding, Reply::Texts(texts)) => {
                if texts.len() != 1 {
                    return Err(wrong_reply_text());
                }
                self.snapshot_sha256 = texts[0].clone();
                self.phase = BoltzPhase::KeepAuthorization;
                Ok(())
            },
            (BoltzPhase::KeepAuthorization, Reply::Done) => {
                self.phase = BoltzPhase::SayVerified;
                Ok(())
            },
            (BoltzPhase::SayVerified, Reply::Record(_)) => {
                self.phase = BoltzPhase::KeepReady;
                Ok(())
            },
            (BoltzPhase::KeepReady, Reply::Done) => {
                self.phase = BoltzPhase::ReadRecords;
                Ok(())
            },
            (BoltzPhase::ReadRecords, Reply::Records(records)) => {
                let ids: (String, String) = approval_contract_ids(&records, self.kinds.contract)?;
                let exit: (String, String) = approval_exit_commitment(&self.contract)?;
                self.requester_contract_id = ids.0;
                self.provider_contract_id = ids.1;
                self.exit_mode = exit.0;
                self.exit_sha256 = exit.1;
                self.phase = BoltzPhase::StoreApproval;
                Ok(())
            },
            (BoltzPhase::StoreApproval, Reply::Done) => {
                self.phase = BoltzPhase::AwaitBroadcast;
                Ok(())
            },
            (BoltzPhase::AwaitBroadcast, Reply::Document(Some(broadcast))) => {
                if !self.is_acknowledged(&broadcast) {
                    return Err(
                        "Boltz adapter broadcast acknowledgement changed session or txid".to_owned(),
                    );
                }
                self.phase = BoltzPhase::RequireFundingKnown;
                Ok(())
            },
            (BoltzPhase::RequireFundingKnown, Reply::Document(Some(report))) => {
                let known: () = verify_known_bitcoin_transaction(
                    &report,
                    self.funding_id.as_str(),
                    Some(self.funding_hex.as_str()),
                )?;
                self.phase = BoltzPhase::RecordFunding;
                Ok(())
            },
            (BoltzPhase::RecordFunding, Reply::Done) => {
                self.phase = BoltzPhase::Funded;
                Ok(())
            },
            _ => Err(wrong_reply_text()),
        }
    }
}

/// Whether each entry of a trace leads to the one after it, from the first phase on.
pub open spec fn is_boltz_trace(trace: Seq<(BoltzRunView, ReplyView)>) -> bool {
    &&& trace.len() > 0
    &&& trace[0].0.phase == BoltzPhase::ClearControls
    &&& forall|i: int|
        0 <= i < trace.len() - 1 ==> boltz_step((#[trigger] trace[i]).0, trace[i].1) == Ok::<
            BoltzRunView,
            Seq<char>,
        >(trace[i + 1].0)
}

/// Each reply takes a session of the adapter forward, never back and never in place.
pub proof fn law_boltz_moves_forward(run: BoltzRunView, reply: ReplyView)
    requires
        boltz_step(run, reply) is Ok,
    ensures
        run.phase.rank() < boltz_step(run, reply)->Ok_0.phase.rank(),
{
}

/// Which replies take a session of the adapter on, and to which phase: in each phase exactly the
/// replies that pass every check of that phase, and no others.
pub proof fn law_boltz_goes_on_only_when_answered(run: BoltzRunView, reply: ReplyView)
    ensures
        ({
            let next = boltz_step(run, reply);
            match run.phase {
                BoltzPhase::ClearControls => {
                    &&& next is Ok <==> reply is Done
                    &&& next is Ok ==> next->Ok_0.phase == BoltzPhase::FundWallet
                },
                BoltzPhase::FundWallet => {
                    &&& next is Ok <==> reply is Done
                    &&& next is Ok ==> next->Ok_0.phase == BoltzPhase::CreateInvoice
                },
                BoltzPhase::CreateInvoice => {
                    &&& next is Ok <==> {
                        &&& reply is Texts
                        &&& reply->Texts_0.len() == 2
                    }
                    &&& next is Ok ==> next->Ok_0.phase == BoltzPhase::PrepareOrder
                },
                BoltzPhase::PrepareOrder => {
                    &&& next is Ok <==> reply is Session
                    &&& next is Ok ==> next->Ok_0.phase == BoltzPhase::TakeFunding
                },
                BoltzPhase::TakeFunding => {
                    &&& next is Ok <==> reply is Funding
                    &&& next is Ok ==> next->Ok_0.phase == BoltzPhase::ReadSession
                },
                BoltzPhase::ReadSession => {
                    &&& next is Ok <==> {
                        &&& reply is Texts
                        &&& reply->Texts_0.len() == 1
                        &&& adapter_terms_reading(run.contract) is Ok
                    }
                    &&& next is Ok ==> next->Ok_0.phase == BoltzPhase::StorePrepared
                },
                BoltzPhase::StorePrepared => {
                    &&& next is Ok <==> reply is Done
                    &&& next is Ok ==> next->Ok_0.phase == BoltzPhase::AwaitFinalize
                },
                BoltzPhase::AwaitFinalize => {
                    &&& next is Ok <==> {
                        &&& reply is Document
                        &&& reply->Document_0 is Some
                    }
                    &&& next is Ok ==> next->Ok_0.phase == BoltzPhase::HashFunding
                },
                BoltzPhase::HashFunding => {
                    &&& next is Ok <==> {
                        &&& reply is Texts
                        &&& reply->Texts_0.len() == 1
                        &&& run.finalize_request == finalize_doc(run, reply->Texts_0[0])
                    }
                    &&& next is Ok ==> next->Ok_0.phase == BoltzPhase::FinalizeNegotiation
                },
                BoltzPhase::FinalizeNegotiation => {
                    &&& next is Ok <==> reply is Session
                    &&& next is Ok ==> next->Ok_0.phase == BoltzPhase::AwaitAccepted
                },
                BoltzPhase::AwaitAccepted => {
                    &&& next is Ok <==> reply is Record
                    &&& next is Ok ==> next->Ok_0.phase == BoltzPhase::AwaitLockTerms
                },
                BoltzPhase::AwaitLockTerms => {
                    &&& next is Ok <==> reply is Record
                    &&& next is Ok ==> next->Ok_0.phase == BoltzPhase::AuthorizeFunding
                },
                BoltzPhase::AuthorizeFunding => {
                    &&& next is Ok <==> {
                        &&& reply is Texts
                        &&& reply->Texts_0.len() == 1
                    }
                    &&& next is Ok ==> next->Ok_0.phase == BoltzPhase::KeepAuthorization
                },
                BoltzPhase::KeepAuthorization => {
                    &&& next is Ok <==> reply is Done
                    &&& next is Ok ==> next->Ok_0.phase == BoltzPhase::SayVerified
                },
                BoltzPhase::SayVerified => {
                    &&& next is Ok <==> reply is Record
                    &&& next is Ok ==> next->Ok_0.phase == BoltzPhase::KeepReady
                },
                BoltzPhase::KeepReady => {
                    &&& next is Ok <==> reply is Done
                    &&& next is Ok ==> next->Ok_0.phase == BoltzPhase::ReadRecords
                },
                BoltzPhase::ReadRecords => {
                    &&& next is Ok <==> {
                        &&& reply is Records
                        &&& approval_reading(reply->Records_0, run.kinds.contract) is Ok
                        &&& exit_commitment_reading(run.contract) is Ok
                    }
                    &&& next is Ok ==> next->Ok_0.phase == BoltzPhase::StoreApproval
                },
                BoltzPhase::StoreApproval => {
                    &&& next is Ok <==> reply is Done
                    &&& next is Ok ==> next->Ok_0.phase == BoltzPhase::AwaitBroadcast
                },
                BoltzPhase::AwaitBroadcast => {
                    &&& next is Ok <==> {
                        &&& reply is Document
                        &&& reply->Document_0 is Some
                        &&& acknowledges(reply->Document_0->0, run)
                    }
                    &&& next is Ok ==> next->Ok_0.phase == BoltzPhase::RequireFundingKnown
                },
                BoltzPhase::RequireFundingKnown => {
                    &&& next is Ok <==> {
                        &&& reply is Document
                        &&& reply->Document_0 is Some
                        &&& known_transaction_reading(
                            reply->Document_0->0,
                            run.funding_id,
                            Some(run.funding_hex),
                        ) is Ok
                    }
                    &&& next is Ok ==> next->Ok_0.phase == BoltzPhase::RecordFunding
                },
                BoltzPhase::RecordFunding => {
                    &&& next is Ok <==> reply is Done
                    &&& next is Ok ==> next->Ok_0.phase == BoltzPhase::Funded
                },
                BoltzPhase::Funded => next is Err,
            }
        }),
{
}

/// The reply that a trace of a session of the adapter holds for a phase.
pub open spec fn boltz_told(trace: Seq<(BoltzRunView, ReplyView)>, phase: BoltzPhase) -> ReplyView {
    trace[choose|i: int| 0 <= i < trace.len() && (#[trigger] trace[i]).0.phase == phase].1
}

/// The values that a run of a session of the adapter holds, by the replies that gave them: each
/// stays as the reply to one phase gave it, or as the run started with it.
pub open spec fn boltz_holds(trace: Seq<(BoltzRunView, ReplyView)>, run: BoltzRunView) -> bool {
    let start = trace[0].0;
    let payment_hash = boltz_told(trace, BoltzPhase::CreateInvoice)->Texts_0[0];
    let invoice = boltz_told(trace, BoltzPhase::CreateInvoice)->Texts_0[1];
    let order_id_after_prepare_order = boltz_told(trace, BoltzPhase::PrepareOrder)->Session_order_id;
    let contract_after_prepare_order = boltz_told(trace, BoltzPhase::PrepareOrder)->Session_contract;
    let funding_id = boltz_told(trace, BoltzPhase::TakeFunding)->Funding_id;
    let funding_output = boltz_told(trace, BoltzPhase::TakeFunding)->Funding_output_index;
    let funding_hex = boltz_told(trace, BoltzPhase::TakeFunding)->Funding_hex;
    let session_id = boltz_told(trace, BoltzPhase::ReadSession)->Texts_0[0];
    let refund_public_key = adapter_terms_reading(contract_after_prepare_order)->Ok_0.0;
    let output_index = adapter_terms_reading(contract_after_prepare_order)->Ok_0.1;
    let finalize_request = boltz_told(trace, BoltzPhase::AwaitFinalize)->Document_0->0;
    let funding_sha256 = boltz_told(trace, BoltzPhase::HashFunding)->Texts_0[0];
    let order_id_after_finalize_negotiation = boltz_told(trace, BoltzPhase::FinalizeNegotiation)->Session_order_id;
    let contract_after_finalize_negotiation = boltz_told(trace, BoltzPhase::FinalizeNegotiation)->Session_contract;
    let snapshot_sha256 = boltz_told(trace, BoltzPhase::AuthorizeFunding)->Texts_0[0];
    let requester_contract_id = approval_reading(
        boltz_told(trace, BoltzPhase::ReadRecords)->Records_0,
        start.kinds.contract,
    )->Ok_0.0;
    let provider_contract_id = approval_reading(
        boltz_told(trace, BoltzPhase::ReadRecords)->Records_0,
        start.kinds.contract,
    )->Ok_0.1;
    let exit_mode = exit_commitment_reading(contract_after_finalize_negotiation)->Ok_0.0;
    let exit_sha256 = exit_commitment_reading(contract_after_finalize_negotiation)->Ok_0.1;
    &&& run.client == start.client
    &&& run.kinds == start.kinds
    &&& run.phase.rank() > BoltzPhase::CreateInvoice.rank() ==> run.payment_hash == payment_hash
    &&& run.phase.rank() > BoltzPhase::CreateInvoice.rank() ==> run.invoice == invoice
    &&& BoltzPhase::PrepareOrder.rank() < run.phase.rank() <= BoltzPhase::FinalizeNegotiation.rank()
        ==> run.order_id == order_id_after_prepare_order
    &&& run.phase.rank() > BoltzPhase::FinalizeNegotiation.rank()
        ==> run.order_id == order_id_after_finalize_negotiation
    &&& BoltzPhase::PrepareOrder.rank() < run.phase.rank() <= BoltzPhase::FinalizeNegotiation.rank()
        ==> run.contract == contract_after_prepare_order
    &&& run.phase.rank() > BoltzPhase::FinalizeNegotiation.rank()
        ==> run.contract == contract_after_finalize_negotiation
    &&& run.phase.rank() > BoltzPhase::TakeFunding.rank() ==> run.funding_id == funding_id
    &&& run.phase.rank() > BoltzPhase::TakeFunding.rank() ==> run.funding_output == funding_output
    &&& run.phase.rank() > BoltzPhase::TakeFunding.rank() ==> run.funding_hex == funding_hex
    &&& run.phase.rank() > BoltzPhase::ReadSession.rank() ==> run.session_id == session_id
    &&& run.phase.rank() > BoltzPhase::ReadSession.rank()
        ==> run.refund_public_key == refund_public_key
    &&& run.phase.rank() > BoltzPhase::ReadSession.rank() ==> run.output_index == output_index
    &&& run.phase.rank() > BoltzPhase::AwaitFinalize.rank()
        ==> run.finalize_request == finalize_request
    &&& run.phase.rank() > BoltzPhase::HashFunding.rank() ==> run.funding_sha256 == funding_sha256
    &&& run.phase.rank() > BoltzPhase::AuthorizeFunding.rank()
        ==> run.snapshot_sha256 == snapshot_sha256
    &&& run.phase.rank() > BoltzPhase::ReadRecords.rank()
        ==> run.requester_contract_id == requester_contract_id
    &&& run.phase.rank() > BoltzPhase::ReadRecords.rank()
        ==> run.provider_contract_id == provider_contract_id
    &&& run.phase.rank() > BoltzPhase::ReadRecords.rank() ==> run.exit_mode == exit_mode
    &&& run.phase.rank() > BoltzPhase::ReadRecords.rank() ==> run.exit_sha256 == exit_sha256
}

/// No phase of a session of the adapter comes twice in a trace.
proof fn lemma_boltz_told_once(trace: Seq<(BoltzRunView, ReplyView)>, place: int)
    requires
        is_boltz_trace(trace),
        0 <= place < trace.len(),
    ensures
        boltz_told(trace, trace[place].0.phase) == trace[place].1,
{
    let phase = trace[place].0.phase;
    let other = choose|i: int| 0 <= i < trace.len() && (#[trigger] trace[i]).0.phase == phase;
    assert(trace[place].0.phase == phase);
    if other != place {
        let (early, late) = if other < place {
            (other, place)
        } else {
            (place, other)
        };
        assert forall|run: BoltzRunView, reply: ReplyView|
            (#[trigger] boltz_step(run, reply)) is Ok implies run.phase.rank() < boltz_step(
            run,
            reply,
        )->Ok_0.phase.rank() by {
            law_boltz_moves_forward(run, reply);
        }
        lemma_ranks_rise(
            trace,
            |run: BoltzRunView, reply: ReplyView| boltz_step(run, reply),
            |run: BoltzRunView| run.phase.rank(),
            early,
            late,
        );
    }
}

/// A reply keeps what a session of the adapter holds, and adds what it tells.
proof fn lemma_boltz_holds_on(
    trace: Seq<(BoltzRunView, ReplyView)>,
    run: BoltzRunView,
    reply: ReplyView,
)
    requires
        boltz_holds(trace, run),
        boltz_told(trace, run.phase) == reply,
        boltz_step(run, reply) is Ok,
    ensures
        boltz_holds(trace, boltz_step(run, reply)->Ok_0),
{
    let next = boltz_step(run, reply)->Ok_0;
    match run.phase {
        BoltzPhase::ClearControls => assert(boltz_holds(trace, next)),
        BoltzPhase::FundWallet => assert(boltz_holds(trace, next)),
        BoltzPhase::CreateInvoice => assert(boltz_holds(trace, next)),
        BoltzPhase::PrepareOrder => assert(boltz_holds(trace, next)),
        BoltzPhase::TakeFunding => assert(boltz_holds(trace, next)),
        BoltzPhase::ReadSession => assert(boltz_holds(trace, next)),
        BoltzPhase::StorePrepared => assert(boltz_holds(trace, next)),
        BoltzPhase::AwaitFinalize => assert(boltz_holds(trace, next)),
        BoltzPhase::HashFunding => assert(boltz_holds(trace, next)),
        BoltzPhase::FinalizeNegotiation => assert(boltz_holds(trace, next)),
        BoltzPhase::AwaitAccepted => assert(boltz_holds(trace, next)),
        BoltzPhase::AwaitLockTerms => assert(boltz_holds(trace, next)),
        BoltzPhase::AuthorizeFunding => assert(boltz_holds(trace, next)),
        BoltzPhase::KeepAuthorization => assert(boltz_holds(trace, next)),
        BoltzPhase::SayVerified => assert(boltz_holds(trace, next)),
        BoltzPhase::KeepReady => assert(boltz_holds(trace, next)),
        BoltzPhase::ReadRecords => assert(boltz_holds(trace, next)),
        BoltzPhase::StoreApproval => assert(boltz_holds(trace, next)),
        BoltzPhase::AwaitBroadcast => assert(boltz_holds(trace, next)),
        BoltzPhase::RequireFundingKnown => assert(boltz_holds(trace, next)),
        BoltzPhase::RecordFunding => assert(boltz_holds(trace, next)),
        BoltzPhase::Funded => assert(boltz_holds(trace, next)),
    }
}

/// What a session of the adapter has been told, it keeps: at every place of a trace each value that
/// the run holds is the one that the reply to the phase that asks for it gave, or the one that the
/// run started with.
pub proof fn law_boltz_keeps_what_it_was_told(trace: Seq<(BoltzRunView, ReplyView)>, last: int)
    requires
        is_boltz_trace(trace),
        0 <= last < trace.len(),
    ensures
        boltz_holds(trace, trace[last].0),
    decreases last,
{
    if last > 0 {
        let before = last - 1;
        law_boltz_keeps_what_it_was_told(trace, before);
        lemma_boltz_told_once(trace, before);
        assert(boltz_step(trace[before].0, trace[before].1) == Ok::<BoltzRunView, Seq<char>>(
            trace[before + 1].0,
        ));
        lemma_boltz_holds_on(trace, trace[before].0, trace[before].1);
    }
}

/// What a session of the adapter asks for in each phase, in terms of the replies before it: the
/// values in a request are those that the replies to the named phases gave, or those that the run
/// started with.
pub proof fn law_boltz_asks_with_what_it_was_told(trace: Seq<(BoltzRunView, ReplyView)>, last: int)
    requires
        is_boltz_trace(trace),
        0 <= last < trace.len(),
    ensures
        ({
            let start = trace[0].0;
            let payment_hash = boltz_told(trace, BoltzPhase::CreateInvoice)->Texts_0[0];
            let invoice = boltz_told(trace, BoltzPhase::CreateInvoice)->Texts_0[1];
            let contract_after_prepare_order = boltz_told(trace, BoltzPhase::PrepareOrder)->Session_contract;
            let funding_id = boltz_told(trace, BoltzPhase::TakeFunding)->Funding_id;
            let funding_hex = boltz_told(trace, BoltzPhase::TakeFunding)->Funding_hex;
            let session_id = boltz_told(trace, BoltzPhase::ReadSession)->Texts_0[0];
            let refund_public_key = adapter_terms_reading(contract_after_prepare_order)->Ok_0.0;
            let output_index = adapter_terms_reading(contract_after_prepare_order)->Ok_0.1;
            let funding_sha256 = boltz_told(trace, BoltzPhase::HashFunding)->Texts_0[0];
            let contract_after_finalize_negotiation = boltz_told(trace, BoltzPhase::FinalizeNegotiation)->Session_contract;
            let snapshot_sha256 = boltz_told(trace, BoltzPhase::AuthorizeFunding)->Texts_0[0];
            let requester_contract_id = approval_reading(
                boltz_told(trace, BoltzPhase::ReadRecords)->Records_0,
                start.kinds.contract,
            )->Ok_0.0;
            let provider_contract_id = approval_reading(
                boltz_told(trace, BoltzPhase::ReadRecords)->Records_0,
                start.kinds.contract,
            )->Ok_0.1;
            let exit_mode = exit_commitment_reading(contract_after_finalize_negotiation)->Ok_0.0;
            let exit_sha256 = exit_commitment_reading(contract_after_finalize_negotiation)->Ok_0.1;
            let action = boltz_action(trace[last].0);
            match trace[last].0.phase {
                BoltzPhase::ClearControls => action == ActionView::Perform(
                    Task::ClearControls,
                    seq![start.client],
                ),
                BoltzPhase::FundWallet => action == ActionView::Perform(Task::FundWallet, seq![]),
                BoltzPhase::CreateInvoice => action == ActionView::Perform(
                    Task::CreateInvoice,
                    seq![
                        "immortal-boltz_"@ + start.client,
                        decimal(OUTPUT_AMOUNT_SAT as nat),
                        "Immortal Boltz adapter process gate"@,
                        decimal(INVOICE_EXPIRY_SECONDS as nat),
                    ],
                ),
                BoltzPhase::PrepareOrder => action == ActionView::Perform(
                    Task::PrepareOrder,
                    seq![payment_hash, invoice],
                ),
                BoltzPhase::TakeFunding => action == ActionView::Perform(Task::TakeFunding, seq![]),
                BoltzPhase::ReadSession => action == ActionView::Perform(Task::ReadSession, seq![]),
                BoltzPhase::StorePrepared => action == ActionView::Store(
                    "prepared"@,
                    JsonView::Object(
                        no_members().insert(
                            "schema"@,
                            text_doc("openagents.immortal.boltz-adapter-prepared.v1"@),
                        ).insert("client"@, text_doc(start.client)).insert("session_id"@, text_doc(session_id)).insert("invoice"@, text_doc(invoice)).insert(
                            "refund_public_key"@,
                            text_doc(refund_public_key),
                        ).insert("raw_transaction_hex"@, text_doc(funding_hex)).insert(
                            "output_index"@,
                            number_doc(output_index as u64),
                        ),
                    ),
                ),
                BoltzPhase::AwaitFinalize => action == ActionView::Perform(
                    Task::AwaitControl,
                    seq!["finalize-request"@],
                ),
                BoltzPhase::HashFunding => action == ActionView::Perform(
                    Task::HashFunding,
                    seq![funding_hex],
                ),
                BoltzPhase::FinalizeNegotiation => action == ActionView::Perform(
                    Task::FinalizeNegotiation,
                    seq![session_id],
                ),
                BoltzPhase::AwaitAccepted => action == ActionView::AwaitState("accepted"@),
                BoltzPhase::AwaitLockTerms => action == ActionView::AwaitState("lock_terms_ready"@),
                BoltzPhase::AuthorizeFunding => action == ActionView::Perform(
                    Task::AuthorizeFunding,
                    seq![invoice],
                ),
                BoltzPhase::KeepAuthorization => action == ActionView::Perform(
                    Task::KeepAuthorization,
                    seq![],
                ),
                BoltzPhase::SayVerified => action == ActionView::Say(
                    "requester_verification_passed"@,
                    no_members(),
                ),
                BoltzPhase::KeepReady => action == ActionView::Keep(
                    "funding_execution_ready"@,
                    effect_doc(funding_id),
                ),
                BoltzPhase::ReadRecords => action == ActionView::Perform(Task::ReadRecords, seq![]),
                BoltzPhase::StoreApproval => action == ActionView::Store(
                    "approval"@,
                    JsonView::Object(
                        no_members().insert(
                            "schema"@,
                            text_doc("openagents.immortal.boltz-adapter-approval.v1"@),
                        ).insert("client"@, text_doc(start.client)).insert("session_id"@, text_doc(session_id)).insert("finalize_path"@, text_doc(finalize_path(session_id))).insert("funding_transaction_sha256"@, text_doc(funding_sha256)).insert("output_index"@, number_doc(output_index as u64)).insert(
                            "requester_contract_event_id"@,
                            text_doc(requester_contract_id),
                        ).insert(
                            "provider_contract_event_id"@,
                            text_doc(provider_contract_id),
                        ).insert("exit_package_sha256"@, text_doc(exit_sha256)).insert("exit_package_mode"@, text_doc(exit_mode)).insert(
                            "authorization_snapshot_sha256"@,
                            text_doc(snapshot_sha256),
                        ).insert(
                            "exit_package_persisted"@,
                            JsonView::Bool(true),
                        ).insert("script_path_only"@, JsonView::Bool(true)),
                    ),
                ),
                BoltzPhase::AwaitBroadcast => action == ActionView::Perform(
                    Task::AwaitControl,
                    seq!["broadcast"@],
                ),
                BoltzPhase::RequireFundingKnown => action == ActionView::Perform(
                    Task::RequireKnownTransaction,
                    seq!["boltz-adapter-funding"@, funding_id, funding_hex],
                ),
                BoltzPhase::RecordFunding => action == ActionView::Perform(
                    Task::RecordFundingEffect,
                    seq![funding_id, funding_hex, "text"@],
                ),
                BoltzPhase::Funded => action == ActionView::Finish,
            }
        }),
{
    law_boltz_keeps_what_it_was_told(trace, last);
}

/// The lock is approved only after the client has authorized it.
pub proof fn law_adapter_is_approved_after_authorization(
    trace: Seq<(BoltzRunView, ReplyView)>,
    last: int,
)
    requires
        is_boltz_trace(trace),
        0 <= last < trace.len(),
        trace[last].0.phase == BoltzPhase::StoreApproval,
    ensures
        exists|i: int|
            0 <= i < last && (#[trigger] trace[i]).0.phase == BoltzPhase::AuthorizeFunding &&
                trace[i].1 is Texts,
{
    let i = lemma_milestone(
        trace,
        |run: BoltzRunView, reply: ReplyView| boltz_step(run, reply),
        |run: BoltzRunView| run.phase.rank(),
        12,
        last,
    );
    assert(trace[i].0.phase == BoltzPhase::AuthorizeFunding);
    assert(boltz_step(trace[i].0, trace[i].1) == Ok::<BoltzRunView, Seq<char>>(trace[i + 1].0));
}

/// The session is finalized only after the request was held against what had been prepared.
pub proof fn law_adapter_finalizes_what_was_prepared(
    trace: Seq<(BoltzRunView, ReplyView)>,
    last: int,
)
    requires
        is_boltz_trace(trace),
        0 <= last < trace.len(),
        trace[last].0.phase == BoltzPhase::FinalizeNegotiation,
    ensures
        exists|i: int|
            0 <= i < last && (#[trigger] trace[i]).0.phase == BoltzPhase::HashFunding && (trace[i].1
                matches ReplyView::Texts(texts) && trace[i].0.finalize_request ==
                finalize_doc(trace[i].0, texts[0])),
{
    let i = lemma_milestone(
        trace,
        |run: BoltzRunView, reply: ReplyView| boltz_step(run, reply),
        |run: BoltzRunView| run.phase.rank(),
        8,
        last,
    );
    assert(trace[i].0.phase == BoltzPhase::HashFunding);
    assert(boltz_step(trace[i].0, trace[i].1) == Ok::<BoltzRunView, Seq<char>>(trace[i + 1].0));
}

/// The lock is recorded only after a node reported exactly its bytes.
pub proof fn law_adapter_lock_is_known(trace: Seq<(BoltzRunView, ReplyView)>, last: int)
    requires
        is_boltz_trace(trace),
        0 <= last < trace.len(),
        trace[last].0.phase == BoltzPhase::RecordFunding,
    ensures
        exists|i: int|
            0 <= i < last && (#[trigger] trace[i]).0.phase == BoltzPhase::RequireFundingKnown &&
                (trace[i].1 matches ReplyView::Document(Some(report)) &&
                known_transaction_reading(report, trace[i].0.funding_id,
                Some(trace[i].0.funding_hex)) is Ok),
{
    let i = lemma_milestone(
        trace,
        |run: BoltzRunView, reply: ReplyView| boltz_step(run, reply),
        |run: BoltzRunView| run.phase.rank(),
        19,
        last,
    );
    assert(trace[i].0.phase == BoltzPhase::RequireFundingKnown);
    assert(boltz_step(trace[i].0, trace[i].1) == Ok::<BoltzRunView, Seq<char>>(trace[i + 1].0));
}

/// What another client is told of a prepared lock.
pub open spec fn prepared_doc(run: BoltzRunView) -> JsonView {
    JsonView::Object(
        no_members().insert(
            "schema"@,
            text_doc("openagents.immortal.boltz-adapter-prepared.v1"@),
        ).insert("client"@, text_doc(run.client)).insert(
            "session_id"@,
            text_doc(run.session_id),
        ).insert("invoice"@, text_doc(run.invoice)).insert(
            "refund_public_key"@,
            text_doc(run.refund_public_key),
        ).insert("raw_transaction_hex"@, text_doc(run.funding_hex)).insert(
            "output_index"@,
            number_doc(run.output_index as u64),
        ),
    )
}

impl BoltzRun {
    /// What another client is told of a prepared lock.
    pub fn prepared(&self) -> (document: Json)
        ensures
            document@ == prepared_doc(self@),
    {
        Json::object(
            JsonObject::new().with_text(
                "schema",
                "openagents.immortal.boltz-adapter-prepared.v1",
            ).with_text("client", self.client.as_str()).with_text(
                "session_id",
                self.session_id.as_str(),
            ).with_text("invoice", self.invoice.as_str()).with_text(
                "refund_public_key",
                self.refund_public_key.as_str(),
            ).with_text("raw_transaction_hex", self.funding_hex.as_str()).with_number(
                "output_index",
                self.output_index as u64,
            ),
        )
    }
}

/// What another client is told of an approved lock.
pub open spec fn approval_doc(run: BoltzRunView) -> JsonView {
    JsonView::Object(
        no_members().insert(
            "schema"@,
            text_doc("openagents.immortal.boltz-adapter-approval.v1"@),
        ).insert("client"@, text_doc(run.client)).insert(
            "session_id"@,
            text_doc(run.session_id),
        ).insert("finalize_path"@, text_doc(finalize_path(run.session_id))).insert(
            "funding_transaction_sha256"@,
            text_doc(run.funding_sha256),
        ).insert("output_index"@, number_doc(run.output_index as u64)).insert(
            "requester_contract_event_id"@,
            text_doc(run.requester_contract_id),
        ).insert("provider_contract_event_id"@, text_doc(run.provider_contract_id)).insert(
            "exit_package_sha256"@,
            text_doc(run.exit_sha256),
        ).insert("exit_package_mode"@, text_doc(run.exit_mode)).insert(
            "authorization_snapshot_sha256"@,
            text_doc(run.snapshot_sha256),
        ).insert("exit_package_persisted"@, JsonView::Bool(true)).insert(
            "script_path_only"@,
            JsonView::Bool(true),
        ),
    )
}

impl BoltzRun {
    /// What another client is told of an approved lock.
    pub fn approval(&self) -> (document: Json)
        ensures
            document@ == approval_doc(self@),
    {
        Json::object(
            JsonObject::new().with_text(
                "schema",
                "openagents.immortal.boltz-adapter-approval.v1",
            ).with_text("client", self.client.as_str()).with_text(
                "session_id",
                self.session_id.as_str(),
            ).with(
                "finalize_path",
                Json::text(finalize_path_text(self.session_id.as_str()).as_str()),
            ).with_text("funding_transaction_sha256", self.funding_sha256.as_str()).with_number(
                "output_index",
                self.output_index as u64,
            ).with_text(
                "requester_contract_event_id",
                self.requester_contract_id.as_str(),
            ).with_text("provider_contract_event_id", self.provider_contract_id.as_str()).with_text(
                "exit_package_sha256",
                self.exit_sha256.as_str(),
            ).with_text("exit_package_mode", self.exit_mode.as_str()).with_text(
                "authorization_snapshot_sha256",
                self.snapshot_sha256.as_str(),
            ).with_bool("exit_package_persisted", true).with_bool("script_path_only", true),
        )
    }
}

/// What another client is told of a completed swap.
pub open spec fn complete_doc(run: BoltzRunView) -> JsonView {
    JsonView::Object(
        no_members().insert(
            "schema"@,
            text_doc("openagents.immortal.boltz-adapter-complete.v1"@),
        ).insert("client"@, text_doc(run.client)).insert(
            "session_id"@,
            text_doc(run.session_id),
        ).insert("transaction_id"@, text_doc(run.funding_id)),
    )
}

impl BoltzRun {
    /// What another client is told of a completed swap.
    pub fn complete(&self) -> (document: Json)
        ensures
            document@ == complete_doc(self@),
    {
        Json::object(
            JsonObject::new().with_text(
                "schema",
                "openagents.immortal.boltz-adapter-complete.v1",
            ).with_text("client", self.client.as_str()).with_text(
                "session_id",
                self.session_id.as_str(),
            ).with_text("transaction_id", self.funding_id.as_str()),
        )
    }
}

/// The request that finalizes exactly what had been prepared.
pub open spec fn finalize_doc(run: BoltzRunView, sha256: Seq<char>) -> JsonView {
    JsonView::Object(
        no_members().insert(
            "schema"@,
            text_doc("openagents.immortal.boltz-adapter-finalize.v1"@),
        ).insert("client"@, text_doc(run.client)).insert(
            "session_id"@,
            text_doc(run.session_id),
        ).insert("finalize_path"@, text_doc(finalize_path(run.session_id))).insert(
            "raw_transaction_hex"@,
            text_doc(run.funding_hex),
        ).insert("funding_transaction_sha256"@, text_doc(sha256)).insert(
            "output_index"@,
            number_doc(run.output_index as u64),
        ),
    )
}

impl BoltzRun {
    fn finalize(&self, sha256: &str) -> (document: Json)
        ensures
            document@ == finalize_doc(self@, sha256@),
    {
        Json::object(
            JsonObject::new().with_text(
                "schema",
                "openagents.immortal.boltz-adapter-finalize.v1",
            ).with_text("client", self.client.as_str()).with_text(
                "session_id",
                self.session_id.as_str(),
            ).with(
                "finalize_path",
                Json::text(finalize_path_text(self.session_id.as_str()).as_str()),
            ).with_text("raw_transaction_hex", self.funding_hex.as_str()).with(
                "funding_transaction_sha256",
                Json::text(sha256),
            ).with_number("output_index", self.output_index as u64),
        )
    }

    fn is_acknowledged(&self, broadcast: &Json) -> (is: bool)
        ensures
            is == acknowledges(broadcast@, self@),
    {
        broadcast.says("schema", "openagents.immortal.boltz-adapter-broadcast.v1")
            && broadcast.says("client", self.client.as_str()) && broadcast.says(
            "session_id",
            self.session_id.as_str(),
        ) && broadcast.says("transaction_id", self.funding_id.as_str())
    }
}

/// Whether a message says that exactly this lock was broadcast.
pub open spec fn acknowledges(broadcast: JsonView, run: BoltzRunView) -> bool {
    &&& member_text(broadcast, "schema"@) == Some("openagents.immortal.boltz-adapter-broadcast.v1"@)
    &&& member_text(broadcast, "client"@) == Some(run.client)
    &&& member_text(broadcast, "session_id"@) == Some(run.session_id)
    &&& member_text(broadcast, "transaction_id"@) == Some(run.funding_id)
}

/// A broadcast is acknowledged for one lock only: it names the client, the session and the transaction,
/// so two sessions that it is acknowledged for agree in all three.
pub proof fn law_broadcast_is_acknowledged_for_one_lock(
    broadcast: JsonView,
    run: BoltzRunView,
    other: BoltzRunView,
)
    requires
        acknowledges(broadcast, run),
    ensures
        acknowledges(broadcast, other) <==> {
            &&& other.client == run.client
            &&& other.session_id == run.session_id
            &&& other.funding_id == run.funding_id
        },
        member_text(broadcast, "transaction_id"@) == Some(run.funding_id),
{
}

} // verus!
