//! Faults that a session is probed with before anything is funded.

use vstd::prelude::*;
use crate::journey::HarnessInjection;
use crate::json::{Json, JsonObject, JsonView, no_members, text_doc};
use crate::record::Event;
use crate::status::{next_created_at_records, next_time};
use crate::text::{join, maybe, same_text, told};

verus! {

/// What a session is probed with before anything is funded.
#[derive(Clone, Copy, Debug, PartialEq, Eq, Structural)]
pub enum Probe {
    /// Nothing.
    Nothing,
    /// A record that it has already.
    Duplicate,
    /// A record that it has already, with other bytes.
    Conflict,
    /// A document with custody material.
    SecretLeak,
    /// A status that follows one which is not there.
    StatusGap,
    /// Two statuses in one place.
    StatusFork,
}

/// What a session is probed with for a fault.
pub open spec fn probe_for(injection: Option<HarnessInjection>) -> Probe {
    match injection {
        Some(HarnessInjection::DuplicateMessage) => Probe::Duplicate,
        Some(HarnessInjection::ConflictingMessage) => Probe::Conflict,
        Some(HarnessInjection::SecretLeak) => Probe::SecretLeak,
        Some(HarnessInjection::StatusGap) => Probe::StatusGap,
        Some(HarnessInjection::StatusFork) => Probe::StatusFork,
        _ => Probe::Nothing,
    }
}

/// What a session is probed with for a fault.
pub fn pre_fund_probe(injection: Option<HarnessInjection>) -> (probe: Probe)
    ensures
        probe == probe_for(injection),
{
    match injection {
        Some(HarnessInjection::DuplicateMessage) => Probe::Duplicate,
        Some(HarnessInjection::ConflictingMessage) => Probe::Conflict,
        Some(HarnessInjection::SecretLeak) => Probe::SecretLeak,
        Some(HarnessInjection::StatusGap) => Probe::StatusGap,
        Some(HarnessInjection::StatusFork) => Probe::StatusFork,
        _ => Probe::Nothing,
    }
}

/// A refusal: its code and its text.
pub struct Refusal {
    pub code: String,
    pub message: String,
}

/// What taking a record in reads as: whether it was new.
pub open spec fn taken_reading(
    taken: Result<bool, Refusal>,
    rejected: Seq<char>,
    replayed: Seq<char>,
) -> Result<(), Seq<char>> {
    match taken {
        Err(refusal) => Err(rejected + refusal.message@),
        Ok(true) => Ok(()),
        Ok(false) => Err(replayed),
    }
}

fn check_taken(taken: &Result<bool, Refusal>, rejected: &str, replayed: &str) -> (checked: Result<
    (),
    String,
>)
    ensures
        told(checked) == taken_reading(*taken, rejected@, replayed@),
{
    match taken {
        Err(refusal) => Err(join(rejected, refusal.message.as_str())),
        Ok(true) => Ok(()),
        Ok(false) => Err(replayed.to_owned()),
    }
}

/// What a refusal reads as that a probe was made for: the journey always ends with a message.
pub open spec fn refused_reading<T>(
    outcome: Result<T, Refusal>,
    code: Seq<char>,
    accepted: Seq<char>,
    another: Seq<char>,
    expected: Seq<char>,
) -> Seq<char> {
    match outcome {
        Ok(_) => accepted,
        Err(refusal) => if refusal.code@ != code {
            another + refusal.message@
        } else {
            expected
        },
    }
}

fn judge_refusal<T>(
    outcome: &Result<T, Refusal>,
    code: &str,
    accepted: &str,
    another: &str,
    expected: &str,
) -> (message: String)
    ensures
        message@ == refused_reading(*outcome, code@, accepted@, another@, expected@),
{
    match outcome {
        Ok(_) => accepted.to_owned(),
        Err(refusal) => if !same_text(refusal.code.as_str(), code) {
            join(another, refusal.message.as_str())
        } else {
            expected.to_owned()
        },
    }
}

/// Checks that a record which a session has already makes no new one.
pub fn judge_duplicate(taken: &Result<bool, Refusal>) -> (checked: Result<(), String>)
    ensures
        told(checked) == (match *taken {
            Err(refusal) => Err("duplicate injection was rejected: "@ + refusal.message@),
            Ok(true) => Err("duplicate injection created another logical record"@),
            Ok(false) => Ok(()),
        }),
{
    match taken {
        Err(refusal) => Err(join("duplicate injection was rejected: ", refusal.message.as_str())),
        Ok(true) => Err("duplicate injection created another logical record".to_owned()),
        Ok(false) => Ok(()),
    }
}

/// The content of a record that conflicts with another: one more space.
pub fn conflicting_content(order: &Event) -> (content: String)
    ensures
        content@ == order.content@ + " "@,
{
    join(order.content.as_str(), " ")
}

/// What a conflicting record comes to: a message in any case.
pub fn judge_conflict(taken: &Result<bool, Refusal>) -> (message: String)
    ensures
        message@ == refused_reading(
            *taken,
            "swp_idempotency_conflict"@,
            "conflicting signed bytes were accepted"@,
            "conflict injection returned another refusal: "@,
            "injected conflicting message rejected before funding"@,
        ),
{
    judge_refusal(
        taken,
        "swp_idempotency_conflict",
        "conflicting signed bytes were accepted",
        "conflict injection returned another refusal: ",
        "injected conflicting message rejected before funding",
    )
}

/// So many zeros.
pub open spec fn zeros(count: nat) -> Seq<char> {
    Seq::new(count, |i: int| '0')
}

/// A document with custody material: a preimage of thirty-two zero bytes.
pub open spec fn leaked_doc() -> JsonView {
    JsonView::Object(no_members().insert("preimage"@, text_doc(zeros(64))))
}

/// A document with custody material.
pub fn leaked_document() -> (document: Json)
    ensures
        document@ == leaked_doc(),
{
    let text: &str = "0000000000000000000000000000000000000000000000000000000000000000";
    proof {
        reveal_strlit("0000000000000000000000000000000000000000000000000000000000000000");
        assert(text@ =~= zeros(64));
    }
    Json::object(JsonObject::new().with_text("preimage", text))
}

/// What custody material comes to: a message in any case.
pub fn judge_leak(scanned: &Result<(), Refusal>) -> (message: String)
    ensures
        message@ == refused_reading(
            *scanned,
            "swp_secret_material_forbidden"@,
            "custody injection was accepted"@,
            "secret injection returned another refusal: "@,
            "injected custody material rejected before persistence or funding"@,
        ),
{
    judge_refusal(
        scanned,
        "swp_secret_material_forbidden",
        "custody injection was accepted",
        "secret injection returned another refusal: ",
        "injected custody material rejected before persistence or funding",
    )
}

/// A status that a probe is made with: its sequence number, the text whose digest is named as the
/// status before it, and the text whose digest keeps it apart.
pub struct ProbeStatus {
    pub sequence: u64,
    pub previous: Option<String>,
    pub distinct: String,
    pub created_at: u64,
}

/// The status that follows one which is not there.
pub fn gap_status(records: &Vec<Event>, session_id: &str, now: u64) -> (status: ProbeStatus)
    ensures
        status.sequence == 1,
        maybe(status.previous) == Some("missing-requester-status:"@ + session_id@),
        status.distinct@ == "requester-status-gap:"@ + session_id@,
        status.created_at == next_time(records@, now),
{
    ProbeStatus {
        sequence: 1,
        previous: Some(join("missing-requester-status:", session_id)),
        distinct: join("requester-status-gap:", session_id),
        created_at: next_created_at_records(records, now),
    }
}

/// One of two statuses in one place.
pub fn fork_status(records: &Vec<Event>, session_id: &str, second: bool, now: u64) -> (status: ProbeStatus)
    ensures
        status.sequence == 0,
        status.previous is None,
        status.distinct@ == (if second {
            "requester-status-fork-b:"@
        } else {
            "requester-status-fork-a:"@
        }) + session_id@,
        status.created_at == next_time(records@, now),
{
    ProbeStatus {
        sequence: 0,
        previous: None,
        distinct: join(
            if second {
                "requester-status-fork-b:"
            } else {
                "requester-status-fork-a:"
            },
            session_id,
        ),
        created_at: next_created_at_records(records, now),
    }
}

/// What a status that follows a missing one comes to: a message in any case. The projection counts
/// only where the status was taken in.
pub open spec fn gap_reading(taken: Result<bool, Refusal>, contiguous: Result<(), Refusal>) -> Seq<char> {
    match taken_reading(
        taken,
        "could not ingest Status gap record: "@,
        "Status gap replayed another record"@,
    ) {
        Err(message) => message,
        Ok(_) => refused_reading(
            contiguous,
            "swp_status_gap"@,
            "Status gap projection was contiguous"@,
            "Status gap returned another refusal: "@,
            "swp_status_gap rejected before external effect"@,
        ),
    }
}

/// What a status that follows a missing one comes to.
pub fn judge_gap(taken: &Result<bool, Refusal>, contiguous: &Result<(), Refusal>) -> (message: String)
    ensures
        message@ == gap_reading(*taken, *contiguous),
{
    match check_taken(
        taken,
        "could not ingest Status gap record: ",
        "Status gap replayed another record",
    ) {
        Err(message) => message,
        Ok(_) => judge_refusal(
            contiguous,
            "swp_status_gap",
            "Status gap projection was contiguous",
            "Status gap returned another refusal: ",
            "swp_status_gap rejected before external effect",
        ),
    }
}

/// What two statuses in one place come to: a message in any case.
pub open spec fn fork_reading(
    first: Result<bool, Refusal>,
    second: Result<bool, Refusal>,
    contiguous: Result<(), Refusal>,
) -> Seq<char> {
    match taken_reading(
        first,
        "could not establish Status fork prefix: "@,
        "Status fork prefix replayed another record"@,
    ) {
        Err(message) => message,
        Ok(_) => match taken_reading(
            second,
            "could not ingest Status fork record: "@,
            "Status fork replayed another record"@,
        ) {
            Err(message) => message,
            Ok(_) => refused_reading(
                contiguous,
                "swp_status_fork"@,
                "Status fork projection was contiguous"@,
                "Status fork returned another refusal: "@,
                "swp_status_fork rejected before external effect"@,
            ),
        },
    }
}

/// What two statuses in one place come to.
pub fn judge_fork(
    first: &Result<bool, Refusal>,
    second: &Result<bool, Refusal>,
    contiguous: &Result<(), Refusal>,
) -> (message: String)
    ensures
        message@ == fork_reading(*first, *second, *contiguous),
{
    match check_taken(
        first,
        "could not establish Status fork prefix: ",
        "Status fork prefix replayed another record",
    ) {
        Err(message) => {
            return message;
        },
        Ok(_) => {},
    }
    match check_taken(
        second,
        "could not ingest Status fork record: ",
        "Status fork replayed another record",
    ) {
        Err(message) => message,
        Ok(_) => judge_refusal(
            contiguous,
            "swp_status_fork",
            "Status fork projection was contiguous",
            "Status fork returned another refusal: ",
            "swp_status_fork rejected before external effect",
        ),
    }
}

/// A fault that a probe is made for ends as such only where the session refused it with its code.
pub proof fn law_only_the_expected_refusal_counts<T>(
    outcome: Result<T, Refusal>,
    code: Seq<char>,
    accepted: Seq<char>,
    another: Seq<char>,
    expected: Seq<char>,
)
    requires
        expected != accepted,
        expected.len() > 0,
        another.len() > 0,
        expected[0] != another[0],
        refused_reading(outcome, code, accepted, another, expected) == expected,
    ensures
        outcome matches Err(refusal) && refusal.code@ == code,
{
    if let Err(refusal) = outcome {
        assert((another + refusal.message@)[0] == another[0]);
    }
}

} // verus!
