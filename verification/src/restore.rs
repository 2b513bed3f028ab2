//! Going on with a swap that was interrupted: which checkpoints can be restored and with what.

use vstd::prelude::*;
use crate::control::{FundedCheckpoint, counted, said};
use crate::direct::{EventView, same_event};
use crate::journey::{DoomsdayCase, FundedJourney};
use crate::json::{
    Json, JsonObject, JsonView, bool_of, complete_by, items_of, items_view, lemma_items_view,
    member, member_text, members_of, name_views, no_members, text_of,
};
use crate::lifecycle::{find_kind, first_of_kind};
use crate::record::{Event, RecordKinds, profile_reading, record_profile};
use crate::status::{latest_requester_status, latest_status, latest_view};
use crate::text::{is_text, join3, maybe, same_text, told};

verus! {

/// Whether a journey can go on from a checkpoint.
pub open spec fn is_restartable(journey: FundedJourney, label: Seq<char>) -> bool {
    let early = label == "funding_authorized"@ || label == "funding_execution_ready"@ || label
        == "funding_effect_recorded"@;
    match journey {
        FundedJourney::Submarine => early || label == "completed"@,
        FundedJourney::SubmarineRefund => false,
        FundedJourney::ReverseClaim => early || label == "claim_broadcast_ready"@ || label
            == "claim_broadcast_recorded"@ || label == "completed"@,
        FundedJourney::ReverseRefund => early || label == "refunded"@,
    }
}

/// Whether a journey can go on from a checkpoint.
pub fn restartable_checkpoint(journey: FundedJourney, label: &str) -> (restartable: bool)
    ensures
        restartable == is_restartable(journey, label@),
{
    let early: bool = same_text(label, "funding_authorized") || same_text(
        label,
        "funding_execution_ready",
    ) || same_text(label, "funding_effect_recorded");
    match journey {
        FundedJourney::Submarine => early || same_text(label, "completed"),
        FundedJourney::SubmarineRefund => false,
        FundedJourney::ReverseClaim => early || same_text(label, "claim_broadcast_ready")
            || same_text(label, "claim_broadcast_recorded") || same_text(label, "completed"),
        FundedJourney::ReverseRefund => early || same_text(label, "refunded"),
    }
}

/// A submarine refund is never gone on with.
pub proof fn law_submarine_refund_never_restarts(label: Seq<char>)
    ensures
        !is_restartable(FundedJourney::SubmarineRefund, label),
{
}

/// What the checkpoint beside a snapshot reads as for a journey that is to go on from it.
pub open spec fn restorable_reading(
    journey: FundedJourney,
    checkpoint: Option<FundedCheckpoint>,
    run_id: Seq<char>,
) -> Result<(), Seq<char>> {
    match checkpoint {
        None => Err("funded snapshot exists without a checkpoint"@),
        Some(checkpoint) => if checkpoint.run_id@ != run_id || checkpoint.journey@
            != journey.label() {
            Err("funded snapshot checkpoint belongs to another run or journey"@)
        } else if !is_restartable(journey, checkpoint.label@) {
            Err(
                "funded journey "@ + journey.label() + " has unsupported persisted checkpoint "@
                    + checkpoint.label@,
            )
        } else {
            Ok(())
        },
    }
}

/// What the checkpoint beside a snapshot reads as for a journey that is to go on from it: it holds
/// exactly where every one of these conditions does.
pub proof fn law_restorable_holds_by_its_parts(
    journey: FundedJourney,
    checkpoint: Option<FundedCheckpoint>,
    run_id: Seq<char>,
)
    ensures
        ({
            let read = restorable_reading(journey, checkpoint, run_id);
            let read_checkpoint = checkpoint->0;
            &&& read is Ok <==> {
                &&& checkpoint is Some
                &&& read_checkpoint.run_id@ == run_id
                &&& read_checkpoint.journey@ == journey.label()
                &&& is_restartable(journey, read_checkpoint.label@)
            }
        }),
{
}

/// Checks the checkpoint beside a snapshot for a journey that is to go on from it.
pub fn check_restorable(
    journey: FundedJourney,
    checkpoint: &Option<FundedCheckpoint>,
    run_id: &str,
) -> (checked: Result<(), String>)
    ensures
        told(checked) == restorable_reading(journey, *checkpoint, run_id@),
{
    let checkpoint: &FundedCheckpoint = match checkpoint {
        Some(checkpoint) => checkpoint,
        None => {
            return Err("funded snapshot exists without a checkpoint".to_owned());
        },
    };
    if !same_text(checkpoint.run_id.as_str(), run_id) || !same_text(
        checkpoint.journey.as_str(),
        journey.name(),
    ) {
        return Err("funded snapshot checkpoint belongs to another run or journey".to_owned());
    }
    if !restartable_checkpoint(journey, checkpoint.label.as_str()) {
        let mut message: String = join3(
            "funded journey ",
            journey.name(),
            " has unsupported persisted checkpoint ",
        );
        message.append(checkpoint.label.as_str());
        return Err(message);
    }
    Ok(())
}

/// The contract that a record carries, where it is a contract record that carries one.
pub open spec fn contract_of(event: Event, kind: u16) -> Option<JsonView> {
    if event.kind != kind {
        None
    } else {
        match profile_reading(event.content@) {
            Err(_) => None,
            Ok(profile) => member(JsonView::Object(profile), "contract"@),
        }
    }
}

/// The contract that the first record carries which carries one.
pub open spec fn carried_contract(records: Seq<Event>, kind: u16) -> Option<JsonView>
    decreases records.len(),
{
    if records.len() == 0 {
        None
    } else {
        match contract_of(records[0], kind) {
            Some(contract) => Some(contract),
            None => carried_contract(records.drop_first(), kind),
        }
    }
}

fn read_contract(event: &Event, kind: u16) -> (contract: Option<Json>)
    ensures
        (match contract {
            Some(contract) => Some(contract@),
            None => None,
        }) == contract_of(*event, kind),
{
    if event.kind != kind {
        return None;
    }
    match record_profile(event) {
        Err(_) => None,
        Ok(profile) => match profile.get("contract") {
            Some(contract) => Some(contract.copy()),
            None => None,
        },
    }
}

fn find_contract(records: &Vec<Event>, kind: u16) -> (contract: Option<Json>)
    ensures
        (match contract {
            Some(contract) => Some(contract@),
            None => None,
        }) == carried_contract(records@, kind),
{
    let mut i: usize = 0;
    assert(records@.subrange(0, records@.len() as int) =~= records@);
    while i < records.len()
        invariant
            i <= records@.len(),
            carried_contract(records@, kind) == carried_contract(
                records@.subrange(i as int, records@.len() as int),
                kind,
            ),
        decreases records@.len() - i,
    {
        let ghost rest = records@.subrange(i as int, records@.len() as int);
        assert(rest[0] == records@[i as int]);
        assert(rest.drop_first() =~= records@.subrange(i + 1, records@.len() as int));
        if let Some(contract) = read_contract(&records[i], kind) {
            return Some(contract);
        }
        i = i + 1;
    }
    None
}

/// What the records of a restored session hold.
pub struct RestoredRecords {
    pub order_id: String,
    pub contract: Json,
    pub requester_status: Option<(u64, String)>,
}

/// What the records of a restored session hold.
#[verifier::ext_equal]
pub struct RestoredRecordsView {
    pub order_id: Seq<char>,
    pub contract: JsonView,
    pub requester_status: Option<(u64, Seq<char>)>,
}

impl View for RestoredRecords {
    type V = RestoredRecordsView;

    open spec fn view(&self) -> RestoredRecordsView {
        RestoredRecordsView {
            order_id: self.order_id@,
            contract: self.contract@,
            requester_status: latest_view(self.requester_status),
        }
    }
}

/// What the records of a session read as that is restored; `what` names the session in messages.
pub open spec fn records_reading(
    records: Seq<Event>,
    kinds: RecordKinds,
    requester: Seq<char>,
    what: Seq<char>,
) -> Result<RestoredRecordsView, Seq<char>> {
    match first_of_kind(records, kinds.order) {
        None => Err(what + " has no Order"@),
        Some(order) => match carried_contract(records, kinds.contract) {
            None => Err(what + " has no contract"@),
            Some(contract) => match latest_status(records, kinds.status, requester) {
                Err(message) => Err(message),
                Ok(requester_status) => Ok(
                    RestoredRecordsView { order_id: order.id@, contract, requester_status },
                ),
            },
        },
    }
}

/// What the records of a session read as that is restored: it can be had exactly where every part
/// that it rests on can, and each part of it is the one that its name says.
pub proof fn law_records_is_read_from_its_parts(
    records: Seq<Event>,
    kinds: RecordKinds,
    requester: Seq<char>,
    what: Seq<char>,
)
    ensures
        ({
            let read = records_reading(records, kinds, requester, what);
            let given = read->Ok_0;
            &&& read is Ok <==> {
                &&& first_of_kind(records, kinds.order) is Some
                &&& carried_contract(records, kinds.contract) is Some
                &&& latest_status(records, kinds.status, requester) is Ok
            }
            &&& read is Ok ==> {
                &&& given.order_id == first_of_kind(records, kinds.order)->0.id@
                &&& given.contract == carried_contract(records, kinds.contract)->0
                &&& given.requester_status == latest_status(records, kinds.status, requester)->Ok_0
            }
        }),
{
}

/// What the records of a restored session hold; `what` names the session in messages.
pub fn restored_records(
    records: &Vec<Event>,
    kinds: RecordKinds,
    requester_pubkey: &str,
    what: &str,
) -> (restored: Result<RestoredRecords, String>)
    ensures
        (match restored {
            Ok(restored) => Ok(restored@),
            Err(message) => Err(message@),
        }) == records_reading(records@, kinds, requester_pubkey@, what@),
{
    let order: &Event = match find_kind(records, kinds.order) {
        Some(order) => order,
        None => {
            return Err(crate::text::join(what, " has no Order"));
        },
    };
    let contract: Json = match find_contract(records, kinds.contract) {
        Some(contract) => contract,
        None => {
            return Err(crate::text::join(what, " has no contract"));
        },
    };
    let requester_status: Option<(u64, String)> = latest_requester_status(
        records,
        kinds,
        requester_pubkey,
    )?;
    Ok(RestoredRecords { order_id: order.id.clone(), contract, requester_status })
}

/// What a journey was about to do when its funding was authorized.
pub enum AuthorizedAction {
    BroadcastBitcoin { raw_transaction: String },
    PayLightningInvoice { invoice: String },
    Other,
}

/// How a restored journey goes on.
pub enum Resume {
    /// It had ended, with this result.
    Ended(Json),
    /// A submarine swap with this lock and payment.
    Submarine { raw_transaction: String, payment_hash: String },
    /// A reverse swap with this invoice, whose claim key has this number.
    Reverse { invoice: String, claim_index: u32 },
}

/// How a restored journey goes on.
#[verifier::ext_equal]
pub enum ResumeView {
    Ended(JsonView),
    Submarine { raw_transaction: Seq<char>, payment_hash: Seq<char> },
    Reverse { invoice: Seq<char>, claim_index: u32 },
}

impl View for Resume {
    type V = ResumeView;

    open spec fn view(&self) -> ResumeView {
        match *self {
            Resume::Ended(result) => ResumeView::Ended(result@),
            Resume::Submarine { raw_transaction, payment_hash } => ResumeView::Submarine {
                raw_transaction: raw_transaction@,
                payment_hash: payment_hash@,
            },
            Resume::Reverse { invoice, claim_index } => ResumeView::Reverse {
                invoice: invoice@,
                claim_index,
            },
        }
    }
}

/// How a restored journey goes on, by its checkpoint, its contract and what was authorized.
pub open spec fn resume_reading(
    journey: FundedJourney,
    label: Seq<char>,
    details: JsonView,
    contract: JsonView,
    action: AuthorizedAction,
) -> Result<ResumeView, Seq<char>> {
    if label == "completed"@ || label == "refunded"@ {
        match member(details, "result"@) {
            Some(result) => Ok(ResumeView::Ended(result)),
            None => Err("terminal funded checkpoint has no result evidence"@),
        }
    } else {
        match (journey, action) {
            (FundedJourney::Submarine, AuthorizedAction::BroadcastBitcoin { raw_transaction }) =>
                match member_text(contract, "payment_hash"@) {
                    Some(payment_hash) => Ok(
                        ResumeView::Submarine { raw_transaction: raw_transaction@, payment_hash },
                    ),
                    None => Err("restored submarine contract has no payment hash"@),
                },
            (FundedJourney::ReverseClaim, AuthorizedAction::PayLightningInvoice { invoice }) => Ok(
                ResumeView::Reverse { invoice: invoice@, claim_index: 1 },
            ),
            (FundedJourney::ReverseRefund, AuthorizedAction::PayLightningInvoice { invoice }) => Ok(
                ResumeView::Reverse { invoice: invoice@, claim_index: 2 },
            ),
            _ => Err("persisted funding action does not match the requested journey"@),
        }
    }
}

/// How a restored journey goes on.
pub fn resume_authorized_journey(
    journey: FundedJourney,
    checkpoint: &FundedCheckpoint,
    contract: &Json,
    action: &AuthorizedAction,
) -> (resume: Result<Resume, String>)
    ensures
        (match resume {
            Ok(resume) => Ok(resume@),
            Err(message) => Err(message@),
        }) == resume_reading(
            journey,
            checkpoint.label@,
            checkpoint.details@,
            contract@,
            *action,
        ),
{
    let label: &str = checkpoint.label.as_str();
    if same_text(label, "completed") || same_text(label, "refunded") {
        return match checkpoint.details.get("result") {
            Some(result) => Ok(Resume::Ended(result.copy())),
            None => Err("terminal funded checkpoint has no result evidence".to_owned()),
        };
    }
    match (journey, action) {
        (FundedJourney::Submarine, AuthorizedAction::BroadcastBitcoin { raw_transaction }) =>
            match contract.text_at("payment_hash") {
                Some(payment_hash) => Ok(
                    Resume::Submarine {
                        raw_transaction: raw_transaction.clone(),
                        payment_hash: payment_hash.to_owned(),
                    },
                ),
                None => Err("restored submarine contract has no payment hash".to_owned()),
            },
        (FundedJourney::ReverseClaim, AuthorizedAction::PayLightningInvoice { invoice }) => Ok(
            Resume::Reverse { invoice: invoice.clone(), claim_index: 1 },
        ),
        (FundedJourney::ReverseRefund, AuthorizedAction::PayLightningInvoice { invoice }) => Ok(
            Resume::Reverse { invoice: invoice.clone(), claim_index: 2 },
        ),
        _ => Err("persisted funding action does not match the requested journey".to_owned()),
    }
}

/// A journey that had ended gives back the result that it was kept with, whatever else is known.
pub proof fn law_ended_journey_gives_its_result(
    journey: FundedJourney,
    label: Seq<char>,
    result: JsonView,
    contract: JsonView,
    action: AuthorizedAction,
)
    requires
        label == "completed"@ || label == "refunded"@,
    ensures
        resume_reading(
            journey,
            label,
            JsonView::Object(no_members().insert("result"@, result)),
            contract,
            action,
        ) == Ok::<ResumeView, Seq<char>>(ResumeView::Ended(result)),
{
}

/// The views of records.
pub open spec fn event_views(records: Seq<Event>) -> Seq<EventView> {
    records.map_values(|event: Event| event@)
}

/// Checks that an authorization was given for exactly these records and this session.
pub fn check_authorization(
    authorized_records: &Vec<Event>,
    authorized_session: &str,
    records: &Vec<Event>,
    session_id: &str,
) -> (checked: Result<(), String>)
    ensures
        told(checked) == (if event_views(authorized_records@) == event_views(records@)
            && authorized_session@ == session_id@ {
            Ok(())
        } else {
            Err("funding authorization belongs to another signed session view"@)
        }),
{
    if authorized_records.len() != records.len() || !same_text(authorized_session, session_id) {
        assert(event_views(authorized_records@).len() == authorized_records@.len());
        assert(event_views(records@).len() == records@.len());
        return Err("funding authorization belongs to another signed session view".to_owned());
    }
    let mut i: usize = 0;
    while i < records.len()
        invariant
            i <= records@.len(),
            authorized_records@.len() == records@.len(),
            forall|j: int|
                0 <= j < i ==> (#[trigger] event_views(authorized_records@)[j]) == event_views(
                    records@,
                )[j],
        decreases records@.len() - i,
    {
        assert(event_views(authorized_records@)[i as int] == authorized_records@[i as int]@);
        assert(event_views(records@)[i as int] == records@[i as int]@);
        if !same_event(&authorized_records[i], &records[i]) {
            return Err("funding authorization belongs to another signed session view".to_owned());
        }
        i = i + 1;
    }
    assert(event_views(authorized_records@) =~= event_views(records@));
    Ok(())
}

/// What the checkpoint of a prepared case reads as.
pub open spec fn prepared_reading(
    checkpoint: Option<FundedCheckpoint>,
    run_id: Seq<char>,
    case: DoomsdayCase,
) -> Result<Option<Seq<char>>, Seq<char>> {
    match checkpoint {
        None => Err("doomsday snapshot has no checkpoint"@),
        Some(checkpoint) => if checkpoint.run_id@ != run_id || checkpoint.journey@
            != case.journey_label() || checkpoint.label@ != "doomsday_prepared"@ {
            Err("doomsday checkpoint does not bind the prepared session"@)
        } else {
            Ok(member_text(checkpoint.details@, "offering_id"@))
        },
    }
}

/// What the checkpoint of a prepared case reads as: it can be had exactly where every part that it
/// rests on can, and each part of it is the one that its name says.
pub proof fn law_prepared_is_read_from_its_parts(
    checkpoint: Option<FundedCheckpoint>,
    run_id: Seq<char>,
    case: DoomsdayCase,
)
    ensures
        ({
            let read = prepared_reading(checkpoint, run_id, case);
            let read_checkpoint = checkpoint->0;
            let given = read->Ok_0;
            &&& read is Ok <==> {
                &&& checkpoint is Some
                &&& read_checkpoint.run_id@ == run_id
                &&& read_checkpoint.journey@ == case.journey_label()
                &&& read_checkpoint.label@ == "doomsday_prepared"@
            }
            &&& read is Ok ==> {
                &&& given == member_text(read_checkpoint.details@, "offering_id"@)
            }
        }),
{
}

/// Checks the checkpoint of a prepared case and reads the offering that it names.
pub fn check_prepared(checkpoint: &Option<FundedCheckpoint>, run_id: &str, case: DoomsdayCase) -> (
    offering: Result<Option<String>, String>)
    ensures
        (match offering {
            Ok(offering) => Ok(maybe(offering)),
            Err(message) => Err(message@),
        }) == prepared_reading(*checkpoint, run_id@, case),
{
    let checkpoint: &FundedCheckpoint = match checkpoint {
        Some(checkpoint) => checkpoint,
        None => {
            return Err("doomsday snapshot has no checkpoint".to_owned());
        },
    };
    if !same_text(checkpoint.run_id.as_str(), run_id) || !same_text(
        checkpoint.journey.as_str(),
        case.journey_name(),
    ) || !same_text(checkpoint.label.as_str(), "doomsday_prepared") {
        return Err("doomsday checkpoint does not bind the prepared session".to_owned());
    }
    match checkpoint.details.text_at("offering_id") {
        Some(id) => Ok(Some(id.to_owned())),
        None => Ok(None),
    }
}

/// Whether a case keeps the direct channel to the provider.
pub open spec fn keeps_direct_channel(case: DoomsdayCase) -> bool {
    case == DoomsdayCase::ReverseCoordinatorGone || case == DoomsdayCase::LiquidReverseCoordinatorGone
}

/// What has been stopped before a case is recovered.
pub open spec fn stopped_targets(case: DoomsdayCase) -> Seq<Seq<char>> {
    if keeps_direct_channel(case) {
        seq!["provider-b"@, "relay-a"@, "relay-b"@]
    } else {
        seq!["provider-a"@, "provider-b"@, "relay-a"@, "relay-b"@]
    }
}

/// The members of the controller's evidence.
pub open spec fn controller_names() -> Seq<Seq<char>> {
    seq![
        "schema"@,
        "case_id"@,
        "stopped_targets"@,
        "stopped_targets_absent_before_recovery"@,
        "stopped_targets_absent_after_recovery"@,
        "relay_services_absent"@,
        "provider_http_websocket_api_absent"@,
        "direct_recovery_retained"@,
        "direct_recovery_only_session_surface"@,
        "keyless_process"@,
    ]
}

/// The members of the evidence of a process without keys.
pub open spec fn process_names() -> Seq<Seq<char>> {
    seq![
        "separate_container"@,
        "application_environment_names"@,
        "mount_targets"@,
        "observed_environment_count"@,
        "observed_mount_count"@,
        "environment_allowlist_exact"@,
        "mount_allowlist_exact"@,
        "rail_access"@,
        "runtime_environment_scan_passed"@,
        "exact_presigned_request_only"@,
    ]
}

/// A truth that a member says.
pub open spec fn truth_of(members: Map<Seq<char>, JsonView>, name: Seq<char>) -> Option<bool> {
    bool_of(member(JsonView::Object(members), name))
}

fn says_truth(members: &JsonObject, name: &str, expected: bool) -> (says: bool)
    ensures
        says == (truth_of(members@, name@) == Some(expected)),
{
    match members.bool_at(name) {
        Some(value) => value == expected,
        None => false,
    }
}

fn says_count(members: &JsonObject, name: &str, expected: u64) -> (says: bool)
    ensures
        says == (counted(members@, name@) == Some(expected)),
{
    match members.u64_at(name) {
        Some(value) => value == expected,
        None => false,
    }
}

/// Whether items are exactly these texts.
pub open spec fn are_texts(items: Seq<JsonView>, texts: Seq<Seq<char>>) -> bool {
    &&& items.len() == texts.len()
    &&& forall|i: int| 0 <= i < items.len() ==> text_of(Some(#[trigger] items[i])) == Some(texts[i])
}

fn items_are(items: &Vec<Json>, texts: &Vec<&'static str>) -> (are: bool)
    ensures
        are == are_texts(items_view(items@), name_views(texts@)),
{
    proof {
        lemma_items_view(items@);
    }
    if items.len() != texts.len() {
        return false;
    }
    let mut i: usize = 0;
    while i < items.len()
        invariant
            i <= items@.len(),
            items@.len() == texts@.len(),
            items_view(items@).len() == items@.len(),
            forall|j: int|
                0 <= j < items@.len() ==> #[trigger] items_view(items@)[j] == items@[j]@,
            forall|j: int|
                0 <= j < i ==> text_of(Some(#[trigger] items_view(items@)[j])) == Some(
                    name_views(texts@)[j],
                ),
        decreases items@.len() - i,
    {
        assert(items_view(items@)[i as int] == items@[i as int]@);
        assert(name_views(texts@)[i as int] == texts@[i as int]@);
        if !is_text(items[i].as_str(), texts[i]) {
            return false;
        }
        i = i + 1;
    }
    true
}

/// Whether a member lists exactly these texts.
pub open spec fn lists_exactly(
    members: Map<Seq<char>, JsonView>,
    name: Seq<char>,
    texts: Seq<Seq<char>>,
) -> bool {
    match items_of(member(JsonView::Object(members), name)) {
        Some(items) => are_texts(items, texts),
        None => false,
    }
}

fn member_lists(members: &JsonObject, name: &str, texts: &Vec<&'static str>) -> (lists: bool)
    ensures
        lists == lists_exactly(members@, name@, name_views(texts@)),
{
    match members.get(name) {
        Some(value) => match value.as_array() {
            Some(items) => items_are(items, texts),
            None => false,
        },
        None => false,
    }
}

/// Whether the evidence of a process shows that it had no credentials and did one thing only.
pub open spec fn shows_no_credentials(process: Map<Seq<char>, JsonView>) -> bool {
    &&& truth_of(process, "separate_container"@) == Some(true)
    &&& lists_exactly(
        process,
        "application_environment_names"@,
        seq!["IMMORTAL_LAB_KEYLESS_REQUEST_FILE"@, "IMMORTAL_LAB_KEYLESS_RESULT_FILE"@],
    )
    &&& lists_exactly(process, "mount_targets"@, seq!["/keyless"@])
    &&& counted(process, "observed_environment_count"@) == Some(3u64)
    &&& counted(process, "observed_mount_count"@) == Some(1u64)
    &&& truth_of(process, "environment_allowlist_exact"@) == Some(true)
    &&& truth_of(process, "mount_allowlist_exact"@) == Some(true)
    &&& truth_of(process, "rail_access"@) == Some(false)
    &&& truth_of(process, "runtime_environment_scan_passed"@) == Some(true)
    &&& truth_of(process, "exact_presigned_request_only"@) == Some(true)
}

/// What the evidence of a process without keys reads as.
pub open spec fn process_audit_reading(audit: Option<JsonView>, case: DoomsdayCase) -> Result<
    (),
    Seq<char>,
> {
    if case != DoomsdayCase::KeylessEsploraBroadcast {
        if audit == Some(JsonView::Null) {
            Ok(())
        } else {
            Err("non-keyless doomsday case contains a keyless process audit"@)
        }
    } else {
        match members_of(audit) {
            Some(process) if complete_by(process, process_names()) => if shows_no_credentials(
                process,
            ) {
                Ok(())
            } else {
                Err("keyless process audit does not prove its credential-free boundary"@)
            },
            _ => Err("keyless process audit has unknown or missing members"@),
        }
    }
}

/// What the evidence of a process without keys reads as: it holds exactly where every one of these
/// conditions does.
pub proof fn law_process_audit_holds_by_its_parts(audit: Option<JsonView>, case: DoomsdayCase)
    ensures
        ({
            let read = process_audit_reading(audit, case);
            let process = members_of(audit)->0;
            let case_1 = {
                &&& case != DoomsdayCase::KeylessEsploraBroadcast
                &&& audit == Some(JsonView::Null)
            };
            let case_2 = {
                &&& case == DoomsdayCase::KeylessEsploraBroadcast
                &&& members_of(audit) is Some
                &&& complete_by(process, process_names())
                &&& shows_no_credentials(process)
            };
            &&& (read is Ok <==> case_1 || case_2)
        }),
{
}

/// Checks the evidence of a process without keys.
pub fn validate_doomsday_keyless_process_audit(audit: Option<&Json>, case: DoomsdayCase) -> (checked:
    Result<(), String>)
    ensures
        told(checked) == process_audit_reading(crate::json::seen(audit), case),
{
    if case != DoomsdayCase::KeylessEsploraBroadcast {
        if let Some(value) = audit {
            if value.is_null() {
                return Ok(());
            }
        }
        return Err("non-keyless doomsday case contains a keyless process audit".to_owned());
    }
    let refusal: &str = "keyless process audit has unknown or missing members";
    let process: &JsonObject = match audit {
        Some(value) => match value.as_object() {
            Some(process) => process,
            None => {
                return Err(refusal.to_owned());
            },
        },
        None => {
            return Err(refusal.to_owned());
        },
    };
    let names: Vec<&'static str> = vec![
        "separate_container",
        "application_environment_names",
        "mount_targets",
        "observed_environment_count",
        "observed_mount_count",
        "environment_allowlist_exact",
        "mount_allowlist_exact",
        "rail_access",
        "runtime_environment_scan_passed",
        "exact_presigned_request_only",
    ];
    assert(name_views(names@) =~= process_names());
    if !process.is_complete(&names) {
        return Err(refusal.to_owned());
    }
    let environment: Vec<&'static str> = vec![
        "IMMORTAL_LAB_KEYLESS_REQUEST_FILE",
        "IMMORTAL_LAB_KEYLESS_RESULT_FILE",
    ];
    assert(name_views(environment@) =~= seq![
        "IMMORTAL_LAB_KEYLESS_REQUEST_FILE"@,
        "IMMORTAL_LAB_KEYLESS_RESULT_FILE"@,
    ]);
    let mounts: Vec<&'static str> = vec!["/keyless"];
    assert(name_views(mounts@) =~= seq!["/keyless"@]);
    if !says_truth(process, "separate_container", true) || !member_lists(
        process,
        "application_environment_names",
        &environment,
    ) || !member_lists(process, "mount_targets", &mounts) || !says_count(
        process,
        "observed_environment_count",
        3,
    ) || !says_count(process, "observed_mount_count", 1) || !says_truth(
        process,
        "environment_allowlist_exact",
        true,
    ) || !says_truth(process, "mount_allowlist_exact", true) || !says_truth(
        process,
        "rail_access",
        false,
    ) || !says_truth(process, "runtime_environment_scan_passed", true) || !says_truth(
        process,
        "exact_presigned_request_only",
        true,
    ) {
        return Err(
            "keyless process audit does not prove its credential-free boundary".to_owned(),
        );
    }
    Ok(())
}

/// Whether the controller's evidence shows that what a case takes away was gone.
pub open spec fn shows_removal(controller: Map<Seq<char>, JsonView>, case: DoomsdayCase) -> bool {
    &&& lists_exactly(controller, "stopped_targets"@, stopped_targets(case))
    &&& said(controller, "schema"@) == Some("openagents.immortal.doomsday-controller-audit.v1"@)
    &&& said(controller, "case_id"@) == Some(case.id())
    &&& truth_of(controller, "stopped_targets_absent_before_recovery"@) == Some(true)
    &&& truth_of(controller, "stopped_targets_absent_after_recovery"@) is Some
    &&& truth_of(controller, "relay_services_absent"@) == Some(true)
    &&& truth_of(controller, "provider_http_websocket_api_absent"@) == Some(true)
}

/// What the controller's evidence reads as; `custody` says why it was refused as custody material.
pub open spec fn controller_audit_reading(
    document: JsonView,
    custody: Option<Seq<char>>,
    case: DoomsdayCase,
) -> Result<(), Seq<char>> {
    match custody {
        Some(message) => Err(
            "doomsday controller evidence contains custody material: "@ + message,
        ),
        None => match members_of(Some(document)) {
            Some(controller) if complete_by(controller, controller_names()) => if items_of(
                member(JsonView::Object(controller), "stopped_targets"@),
            ) is None {
                Err("doomsday controller stopped targets are not an array"@)
            } else if !shows_removal(controller, case) {
                Err("doomsday controller evidence does not bind the removal cut"@)
            } else if truth_of(controller, "direct_recovery_retained"@) != Some(
                keeps_direct_channel(case),
            ) || truth_of(controller, "direct_recovery_only_session_surface"@) != Some(
                keeps_direct_channel(case),
            ) {
                Err("doomsday controller evidence changed the direct recovery cut"@)
            } else {
                process_audit_reading(
                    member(JsonView::Object(controller), "keyless_process"@),
                    case,
                )
            },
            _ => Err("doomsday controller evidence has unknown or missing members"@),
        },
    }
}

/// What the controller's evidence reads as: it holds exactly where every one of these conditions
/// does.
pub proof fn law_controller_audit_holds_by_its_parts(
    document: JsonView,
    custody: Option<Seq<char>>,
    case: DoomsdayCase,
)
    ensures
        ({
            let read = controller_audit_reading(document, custody, case);
            let controller = members_of(Some(document))->0;
            let given = read->Ok_0;
            &&& read is Ok <==> {
                &&& custody is None
                &&& members_of(Some(document)) is Some
                &&& complete_by(controller, controller_names())
                &&& items_of(member(JsonView::Object(controller), "stopped_targets"@)) is Some
                &&& shows_removal(controller, case)
                &&& truth_of(
                    controller,
                    "direct_recovery_retained"@,
                ) == Some(keeps_direct_channel(case))
                &&& truth_of(
                    controller,
                    "direct_recovery_only_session_surface"@,
                ) == Some(keeps_direct_channel(case))
                &&& process_audit_reading(
                    member(JsonView::Object(controller), "keyless_process"@),
                    case,
                ) is Ok
            }
            &&& read is Ok ==> {
                &&& given == process_audit_reading(
                    member(JsonView::Object(controller), "keyless_process"@),
                    case,
                )->Ok_0
            }
        }),
{
}

/// Checks the controller's evidence that what a case takes away was gone.
pub fn load_doomsday_controller_audit(document: &Json, custody: Option<&str>, case: DoomsdayCase) -> (
    checked: Result<(), String>)
    ensures
        told(checked) == controller_audit_reading(
            document@,
            crate::text::maybe_str(custody),
            case,
        ),
{
    if let Some(message) = custody {
        return Err(
            crate::text::join(
                "doomsday controller evidence contains custody material: ",
                message,
            ),
        );
    }
    let refusal: &str = "doomsday controller evidence has unknown or missing members";
    let controller: &JsonObject = match document.as_object() {
        Some(controller) => controller,
        None => {
            return Err(refusal.to_owned());
        },
    };
    let names: Vec<&'static str> = vec![
        "schema",
        "case_id",
        "stopped_targets",
        "stopped_targets_absent_before_recovery",
        "stopped_targets_absent_after_recovery",
        "relay_services_absent",
        "provider_http_websocket_api_absent",
        "direct_recovery_retained",
        "direct_recovery_only_session_surface",
        "keyless_process",
    ];
    assert(name_views(names@) =~= controller_names());
    if !controller.is_complete(&names) {
        return Err(refusal.to_owned());
    }
    let is_array: bool = match controller.get("stopped_targets") {
        Some(value) => match value.as_array() {
            Some(_) => true,
            None => false,
        },
        None => false,
    };
    if !is_array {
        return Err("doomsday controller stopped targets are not an array".to_owned());
    }
    let direct: bool = case == DoomsdayCase::ReverseCoordinatorGone || case
        == DoomsdayCase::LiquidReverseCoordinatorGone;
    let targets: Vec<&'static str> = if direct {
        vec!["provider-b", "relay-a", "relay-b"]
    } else {
        vec!["provider-a", "provider-b", "relay-a", "relay-b"]
    };
    proof {
        if direct {
            assert(name_views(targets@) =~= seq!["provider-b"@, "relay-a"@, "relay-b"@]);
        } else {
            assert(name_views(targets@) =~= seq![
                "provider-a"@,
                "provider-b"@,
                "relay-a"@,
                "relay-b"@,
            ]);
        }
    }
    let after: bool = match controller.bool_at("stopped_targets_absent_after_recovery") {
        Some(_) => true,
        None => false,
    };
    if !member_lists(controller, "stopped_targets", &targets) || !controller.says(
        "schema",
        "openagents.immortal.doomsday-controller-audit.v1",
    ) || !controller.says("case_id", case.case_id()) || !says_truth(
        controller,
        "stopped_targets_absent_before_recovery",
        true,
    ) || !after || !says_truth(controller, "relay_services_absent", true) || !says_truth(
        controller,
        "provider_http_websocket_api_absent",
        true,
    ) {
        return Err("doomsday controller evidence does not bind the removal cut".to_owned());
    }
    if !says_truth(controller, "direct_recovery_retained", direct) || !says_truth(
        controller,
        "direct_recovery_only_session_surface",
        direct,
    ) {
        return Err("doomsday controller evidence changed the direct recovery cut".to_owned());
    }
    validate_doomsday_keyless_process_audit(controller.get("keyless_process"), case)
}

/// A process without keys is shown exactly for the case that needs one.
pub proof fn law_only_keyless_case_has_a_process(document: JsonView, case: DoomsdayCase)
    requires
        controller_audit_reading(document, None, case) is Ok,
    ensures
        (member(document, "keyless_process"@) == Some(JsonView::Null)) == (case
            != DoomsdayCase::KeylessEsploraBroadcast),
{
    assert(document->Object_0 == members_of(Some(document))->0);
}

/// The direct channel is kept exactly for the cases that a coordinator left, which are the reverse ones:
/// there the first provider goes on, everywhere else it is stopped with the rest.
pub proof fn law_direct_channel_keeps_its_provider(case: DoomsdayCase)
    ensures
        keeps_direct_channel(case) <==> case is ReverseCoordinatorGone || case
            is LiquidReverseCoordinatorGone,
        keeps_direct_channel(case) <==> !stopped_targets(case).contains("provider-a"@),
        stopped_targets(case).contains("provider-b"@),
        stopped_targets(case).contains("relay-a"@),
        stopped_targets(case).contains("relay-b"@),
{
    reveal_strlit("provider-a");
    reveal_strlit("provider-b");
    reveal_strlit("relay-a");
    reveal_strlit("relay-b");
    assert("provider-a"@.len() == 10);
    assert("provider-b"@.len() == 10);
    assert("relay-a"@.len() == 7);
    assert("relay-b"@.len() == 7);
    assert("provider-a"@[9] == 'a');
    assert("provider-b"@[9] == 'b');
    assert("relay-a"@[6] == 'a');
    assert("relay-b"@[6] == 'b');
    let targets = stopped_targets(case);
    if keeps_direct_channel(case) {
        assert(targets[0] == "provider-b"@ && targets[1] == "relay-a"@ && targets[2] == "relay-b"@);
    } else {
        assert(targets[0] == "provider-a"@ && targets[1] == "provider-b"@);
        assert(targets[2] == "relay-a"@ && targets[3] == "relay-b"@);
    }
}

} // verus!
