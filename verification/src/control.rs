//! Control of a run: where it stops, where a fault is injected, and what an acknowledgement of an
//! injected fault has to show.

use vstd::prelude::*;
use vstd::string::*;
use crate::amount::{parse_u64, parsed_u64};
use crate::hex::{is_lower_hex_32, require_lower_hex_32};
use crate::journey::{HarnessInjection, law_injection_names_differ};
use crate::json::{
    Json, JsonObject, JsonView, bool_of, member, member_text, members_of, name_views, shaped_by,
    text_of, u64_of,
};
use crate::text::{head, head_of, join, join3, maybe, maybe_str, same_text, told};
use crate::wire::{parse_json_bytes, parsed_bytes};

verus! {

/// How a run is controlled.
pub struct StepControl {
    pub run_id: String,
    pub stop_after: Option<String>,
    pub inject_at: Option<String>,
    pub injection: Option<HarnessInjection>,
    pub injection_timeout_seconds: u64,
}

/// A point of a journey, as it is recorded.
pub struct FundedCheckpoint {
    pub schema: String,
    pub run_id: String,
    pub journey: String,
    pub label: String,
    pub safe_to_stop: bool,
    pub updated_at: u64,
    pub details: Json,
}

/// A request that someone outside the harness bring a fault about.
pub struct FundedInjectionRequest {
    pub schema: String,
    pub run_id: String,
    pub journey: String,
    pub checkpoint: String,
    pub injection: String,
    pub requested_at: u64,
}

/// What follows a checkpoint once it is recorded.
pub enum CheckpointOutcome {
    /// The journey goes on.
    Proceed,
    /// The journey ends here with a message.
    Refuse(String),
    /// The journey waits until the fault has been injected.
    Pause(HarnessInjection, FundedInjectionRequest),
}

/// The full name of a point of a journey.
pub open spec fn qualified_name(journey: Seq<char>, label: Seq<char>) -> Seq<char> {
    journey + ":"@ + label
}

/// The timeout in seconds that the environment asks for.
pub open spec fn timeout_reading(timeout: Option<Seq<char>>) -> Result<u64, Seq<char>> {
    match timeout {
        None => Ok(180),
        Some(text) => match parsed_u64(text) {
            None => Err("IMMORTAL_LAB_INJECTION_TIMEOUT_SECONDS is not an integer"@),
            Some(seconds) => if 1 <= seconds <= 3_600 {
                Ok(seconds)
            } else {
                Err("IMMORTAL_LAB_INJECTION_TIMEOUT_SECONDS is outside 1..=3600"@)
            },
        },
    }
}

/// The timeout in seconds that the environment asks for: it can be had exactly where every part
/// that it rests on can, and each part of it is the one that its name says.
pub proof fn law_timeout_is_read_from_its_parts(timeout: Option<Seq<char>>)
    ensures
        ({
            let read = timeout_reading(timeout);
            let text = timeout->0;
            let seconds = parsed_u64(text)->0;
            let given = read->Ok_0;
            let case_1 = timeout is None;
            let case_2 = {
                &&& timeout is Some
                &&& parsed_u64(text) is Some
                &&& 1 <= seconds <= 3_600
            };
            &&& (read is Ok <==> case_1 || case_2)
            &&& read is Ok && case_1 ==> {
                &&& given == 180
            }
            &&& read is Ok && case_2 ==> {
                &&& given == seconds
            }
        }),
{
}

/// Whether an optional name is that of an optional injection, or there is neither.
pub open spec fn names_injection(
    name: Option<Seq<char>>,
    injection: Option<HarnessInjection>,
) -> bool {
    match (name, injection) {
        (None, None) => true,
        (Some(name), Some(injection)) => name == injection.label(),
        _ => false,
    }
}

/// Whether no injection has this name.
pub open spec fn is_unknown_injection(name: Option<Seq<char>>) -> bool {
    name is Some && forall|injection: HarnessInjection| name->0 != #[trigger] injection.label()
}

/// The seconds that a timeout setting asks for.
fn read_timeout(timeout: Option<&str>) -> (seconds: Result<u64, String>)
    ensures
        told(seconds) == timeout_reading(maybe_str(timeout)),
{
    match timeout {
        None => Ok(180),
        Some(text) => match parse_u64(text) {
            None => Err("IMMORTAL_LAB_INJECTION_TIMEOUT_SECONDS is not an integer".to_owned()),
            Some(seconds) => if 1 <= seconds && seconds <= 3_600 {
                Ok(seconds)
            } else {
                Err("IMMORTAL_LAB_INJECTION_TIMEOUT_SECONDS is outside 1..=3600".to_owned())
            },
        },
    }
}

impl StepControl {
    /// The control that the settings of the environment and the selected case give.
    pub fn load_with_injection(
        injection_override: Option<HarnessInjection>,
        run_id: String,
        timeout: Option<&str>,
        stop_after: Option<String>,
        inject_at: Option<String>,
        injection_name: Option<&str>,
    ) -> (loaded: Result<StepControl, String>)
        ensures
            match loaded {
                Ok(control) => {
                    &&& timeout_reading(maybe_str(timeout)) == Ok::<u64, Seq<char>>(
                        control.injection_timeout_seconds,
                    )
                    &&& control.run_id@ == run_id@
                    &&& maybe(control.stop_after) == maybe(stop_after)
                    &&& maybe(control.inject_at) == maybe(inject_at)
                    &&& if injection_override is Some {
                        control.injection == injection_override && stop_after is None
                            && injection_name is None
                    } else {
                        names_injection(maybe_str(injection_name), control.injection)
                    }
                    &&& control.injection is Some && control.injection->0.is_external()
                        ==> inject_at is Some
                },
                Err(message) => {
                    ||| timeout_reading(maybe_str(timeout)) == Err::<u64, Seq<char>>(message@)
                    ||| {
                        &&& timeout_reading(maybe_str(timeout)) is Ok
                        &&& is_unknown_injection(maybe_str(injection_name))
                        &&& message@ == "IMMORTAL_LAB_INJECTION is unsupported"@
                    }
                    ||| {
                        &&& timeout_reading(maybe_str(timeout)) is Ok
                        &&& !is_unknown_injection(maybe_str(injection_name))
                        &&& injection_override is Some && (stop_after is Some
                            || injection_name is Some)
                        &&& message@
                            == "adversarial case injection conflicts with funded harness controls"@
                    }
                    ||| {
                        &&& timeout_reading(maybe_str(timeout)) is Ok
                        &&& !is_unknown_injection(maybe_str(injection_name))
                        &&& injection_override is Some ==> stop_after is None && injection_name is None
                        &&& inject_at is None
                        &&& exists|injection: HarnessInjection| #[trigger]
                            injection.is_external() && (injection_override == Some(injection) || (
                            injection_override is None && maybe_str(injection_name) == Some(
                                injection.label(),
                            )))
                        &&& message@ == "external process injections require IMMORTAL_LAB_INJECT_AT"@
                    }
                },
            },
    {
        let injection_timeout_seconds: u64 = match read_timeout(timeout) {
            Ok(seconds) => seconds,
            Err(message) => {
                return Err(message);
            },
        };
        let environment_injection: Option<HarnessInjection> = match injection_name {
            Some(name) => match HarnessInjection::parse(name) {
                Ok(injection) => Some(injection),
                Err(message) => {
                    return Err(message);
                },
            },
            None => None,
        };
        assert(!is_unknown_injection(maybe_str(injection_name)));
        if injection_override.is_some() && (stop_after.is_some() || environment_injection.is_some()) {
            return Err(
                "adversarial case injection conflicts with funded harness controls".to_owned(),
            );
        }
        let injection: Option<HarnessInjection> = match injection_override {
            Some(injection) => Some(injection),
            None => environment_injection,
        };
        if let Some(chosen) = injection {
            if chosen.requires_external_control() && inject_at.is_none() {
                assert(chosen.is_external());
                return Err("external process injections require IMMORTAL_LAB_INJECT_AT".to_owned());
            }
        }
        Ok(StepControl { run_id, stop_after, inject_at, injection, injection_timeout_seconds })
    }

    /// What a checkpoint leads to once it is recorded.
    pub open spec fn checkpoint_reading(
        self,
        journey: Seq<char>,
        label: Seq<char>,
        safe_to_stop: bool,
    ) -> Result<Option<HarnessInjection>, Seq<char>> {
        let name = qualified_name(journey, label);
        if maybe(self.stop_after) == Some(name) {
            if safe_to_stop {
                Err(
                    "controlled stop after "@ + name
                        + "; no unrecorded rail effect was started"@,
                )
            } else {
                Err("refusing controlled stop at unsafe checkpoint "@ + name)
            }
        } else if maybe(self.inject_at) == Some(name) {
            match self.injection {
                None => Err("IMMORTAL_LAB_INJECT_AT requires IMMORTAL_LAB_INJECTION"@),
                Some(injection) => if injection.is_external() {
                    Ok(Some(injection))
                } else {
                    Err(
                        injection.label()
                            + " is a harness-owned pre-fund injection and cannot pause an external process"@,
                    )
                },
            }
        } else {
            Ok(None)
        }
    }

    /// The record of a checkpoint and what follows it.
    pub fn checkpoint(
        &self,
        journey: &str,
        label: &str,
        safe_to_stop: bool,
        details: Json,
        now: u64,
    ) -> (taken: (FundedCheckpoint, CheckpointOutcome))
        ensures
            taken.0.schema@ == "openagents.immortal.lab-checkpoint.v1"@,
            taken.0.run_id@ == self.run_id@,
            taken.0.journey@ == journey@,
            taken.0.label@ == label@,
            taken.0.safe_to_stop == safe_to_stop,
            taken.0.updated_at == now,
            taken.0.details@ == details@,
            match taken.1 {
                CheckpointOutcome::Proceed => self.checkpoint_reading(journey@, label@, safe_to_stop)
                    == Ok::<Option<HarnessInjection>, Seq<char>>(None),
                CheckpointOutcome::Refuse(message) => self.checkpoint_reading(
                    journey@,
                    label@,
                    safe_to_stop,
                ) == Err::<Option<HarnessInjection>, Seq<char>>(message@),
                CheckpointOutcome::Pause(injection, request) => {
                    &&& self.checkpoint_reading(journey@, label@, safe_to_stop) == Ok::<
                        Option<HarnessInjection>,
                        Seq<char>,
                    >(Some(injection))
                    &&& request.schema@ == "openagents.immortal.lab-injection.v1"@
                    &&& request.run_id@ == self.run_id@
                    &&& request.journey@ == journey@
                    &&& request.checkpoint@ == qualified_name(journey@, label@)
                    &&& request.injection@ == injection.label()
                    &&& request.requested_at == now
                },
            },
    {
        let qualified: String = join3(journey, ":", label);
        let record = FundedCheckpoint {
            schema: "openagents.immortal.lab-checkpoint.v1".to_owned(),
            run_id: self.run_id.clone(),
            journey: journey.to_owned(),
            label: label.to_owned(),
            safe_to_stop,
            updated_at: now,
            details,
        };
        if let Some(stop) = &self.stop_after {
            if same_text(stop.as_str(), qualified.as_str()) {
                if !safe_to_stop {
                    return (
                        record,
                        CheckpointOutcome::Refuse(
                            join(
                                "refusing controlled stop at unsafe checkpoint ",
                                qualified.as_str(),
                            ),
                        ),
                    );
                }
                return (
                    record,
                    CheckpointOutcome::Refuse(
                        join3(
                            "controlled stop after ",
                            qualified.as_str(),
                            "; no unrecorded rail effect was started",
                        ),
                    ),
                );
            }
        }
        if let Some(place) = &self.inject_at {
            if same_text(place.as_str(), qualified.as_str()) {
                return match self.injection {
                    None => (
                        record,
                        CheckpointOutcome::Refuse(
                            "IMMORTAL_LAB_INJECT_AT requires IMMORTAL_LAB_INJECTION".to_owned(),
                        ),
                    ),
                    Some(injection) => if injection.requires_external_control() {
                        (
                            record,
                            CheckpointOutcome::Pause(
                                injection,
                                FundedInjectionRequest {
                                    schema: "openagents.immortal.lab-injection.v1".to_owned(),
                                    run_id: self.run_id.clone(),
                                    journey: journey.to_owned(),
                                    checkpoint: qualified,
                                    injection: injection.name().to_owned(),
                                    requested_at: now,
                                },
                            ),
                        )
                    } else {
                        (
                            record,
                            CheckpointOutcome::Refuse(
                                join(
                                    injection.name(),
                                    " is a harness-owned pre-fund injection and cannot pause an external process",
                                ),
                            ),
                        )
                    },
                };
            }
        }
        (record, CheckpointOutcome::Proceed)
    }

    /// Whether a request is the one that an interrupted wallet crash at a checkpoint left behind.
    pub open spec fn is_own_wallet_request(
        self,
        request: FundedInjectionRequest,
        checkpoint: Seq<char>,
    ) -> bool {
        &&& request.run_id@ == self.run_id@
        &&& request.checkpoint@ == checkpoint
        &&& request.injection@ == HarnessInjection::WalletCrash.label()
        &&& request.journey@ == head_of(checkpoint, ':')
    }

    /// The checkpoint whose acknowledgement a resumed wallet crash still waits for, if any.
    pub fn resume_interrupted_wallet_injection(
        &self,
        request: Option<&FundedInjectionRequest>,
    ) -> (resumed: Result<Option<String>, String>)
        ensures
            match resumed {
                Ok(None) => self.injection != Some(HarnessInjection::WalletCrash) || request is None,
                Ok(Some(checkpoint)) => {
                    &&& self.injection == Some(HarnessInjection::WalletCrash)
                    &&& maybe(self.inject_at) == Some(checkpoint@)
                    &&& request is Some && self.is_own_wallet_request(*request->0, checkpoint@)
                },
                Err(message) => {
                    &&& self.injection == Some(HarnessInjection::WalletCrash)
                    &&& request is Some
                    &&& match maybe(self.inject_at) {
                        None => message@ == "wallet crash recovery has no configured checkpoint"@,
                        Some(checkpoint) => !self.is_own_wallet_request(*request->0, checkpoint)
                            && message@
                            == "wallet crash recovery request differs from the selected case"@,
                    }
                },
            },
    {
        match self.injection {
            Some(HarnessInjection::WalletCrash) => {},
            _ => {
                return Ok(None);
            },
        }
        let request: &FundedInjectionRequest = match request {
            Some(request) => request,
            None => {
                return Ok(None);
            },
        };
        let expected: &String = match &self.inject_at {
            Some(expected) => expected,
            None => {
                return Err("wallet crash recovery has no configured checkpoint".to_owned());
            },
        };
        if !same_text(request.run_id.as_str(), self.run_id.as_str()) || !same_text(
            request.checkpoint.as_str(),
            expected.as_str(),
        ) || !same_text(request.injection.as_str(), HarnessInjection::WalletCrash.name())
            || !same_text(request.journey.as_str(), head(expected.as_str(), ':')) {
            return Err("wallet crash recovery request differs from the selected case".to_owned());
        }
        Ok(Some(expected.clone()))
    }
}

/// Whether a member is the identifier of a process.
pub open spec fn is_process_id(process: Option<u64>) -> bool {
    process matches Some(id) && 0 < id <= 0x7fff_ffff
}

fn process_id(process: Option<u64>) -> (valid: bool)
    ensures
        valid == is_process_id(process),
{
    match process {
        Some(id) => 0 < id && id <= 0x7fff_ffff,
        None => false,
    }
}

/// The text of a member of an object.
pub open spec fn said(members: Map<Seq<char>, JsonView>, name: Seq<char>) -> Option<Seq<char>> {
    text_of(member(JsonView::Object(members), name))
}

/// The integer of a member of an object.
pub open spec fn counted(members: Map<Seq<char>, JsonView>, name: Seq<char>) -> Option<u64> {
    u64_of(member(JsonView::Object(members), name))
}

/// Whether a member names one of the two providers.
pub open spec fn targets_provider(evidence: Map<Seq<char>, JsonView>) -> bool {
    said(evidence, "target"@) == Some("provider-a"@) || said(evidence, "target"@) == Some(
        "provider-b"@,
    )
}

/// Whether evidence shows that one provider process was stopped.
pub open spec fn shows_process_stopped(evidence: Map<Seq<char>, JsonView>) -> bool {
    &&& shaped_by(evidence, seq!["target"@, "before_pid"@, "transition"@])
    &&& targets_provider(evidence)
    &&& said(evidence, "transition"@) == Some("process_stopped"@)
    &&& is_process_id(counted(evidence, "before_pid"@))
}

/// Checks that evidence shows that one provider process was stopped.
pub fn validate_process_stopped_evidence(evidence: &JsonObject) -> (checked: Result<(), String>)
    ensures
        told(checked) == (if shows_process_stopped(evidence@) {
            Ok(())
        } else {
            Err("provider stop evidence has another shape"@)
        }),
{
    let names: Vec<&'static str> = vec!["target", "before_pid", "transition"];
    assert(name_views(names@) =~= seq!["target"@, "before_pid"@, "transition"@]);
    if !evidence.is_shaped(&names) || !(evidence.says("target", "provider-a") || evidence.says(
        "target",
        "provider-b",
    )) || !evidence.says("transition", "process_stopped") || !process_id(
        evidence.u64_at("before_pid"),
    ) {
        return Err("provider stop evidence has another shape".to_owned());
    }
    Ok(())
}

/// Whether a name is that of a process which the controller can replace.
pub open spec fn is_replaceable(target: Seq<char>) -> bool {
    ||| target == "relay-a"@
    ||| target == "relay-b"@
    ||| target == "provider-a"@
    ||| target == "provider-b"@
    ||| target == "wallet-driver"@
}

/// What evidence of a process replacement reads as.
pub open spec fn replacement_reading(evidence: Map<Seq<char>, JsonView>) -> Result<(), Seq<char>> {
    let before = counted(evidence, "before_pid"@);
    let after = counted(evidence, "after_pid"@);
    if !shaped_by(evidence, seq!["target"@, "before_pid"@, "after_pid"@, "transition"@]) {
        Err("process injection evidence has another shape"@)
    } else if said(evidence, "target"@) is None {
        Err("process injection evidence has no target"@)
    } else if said(evidence, "transition"@) is None {
        Err("process injection evidence has no transition"@)
    } else if is_replaceable(said(evidence, "target"@)->0) && said(evidence, "transition"@) == Some(
        "process_replaced_and_ready"@,
    ) && is_process_id(before) && is_process_id(after) && before != after {
        Ok(())
    } else {
        Err("injection evidence does not prove one bounded process replacement"@)
    }
}

/// What evidence of a process replacement reads as: it holds exactly where every one of these
/// conditions does.
pub proof fn law_replacement_holds_by_its_parts(evidence: Map<Seq<char>, JsonView>)
    ensures
        ({
            let read = replacement_reading(evidence);
            let before = counted(evidence, "before_pid"@);
            let after = counted(evidence, "after_pid"@);
            &&& read is Ok <==> {
                &&& shaped_by(evidence, seq!["target"@, "before_pid"@, "after_pid"@, "transition"@])
                &&& said(evidence, "target"@) is Some
                &&& said(evidence, "transition"@) is Some
                &&& is_replaceable(said(evidence, "target"@)->0)
                &&& said(evidence, "transition"@) == Some("process_replaced_and_ready"@)
                &&& is_process_id(before)
                &&& is_process_id(after)
                &&& before != after
            }
        }),
{
}

/// Checks that evidence shows the replacement of one process by another.
pub fn validate_process_replacement_evidence(evidence: &JsonObject) -> (checked: Result<(), String>)
    ensures
        told(checked) == replacement_reading(evidence@),
{
    let names: Vec<&'static str> = vec!["target", "before_pid", "after_pid", "transition"];
    assert(name_views(names@) =~= seq!["target"@, "before_pid"@, "after_pid"@, "transition"@]);
    if !evidence.is_shaped(&names) {
        return Err("process injection evidence has another shape".to_owned());
    }
    let target: &str = match evidence.text_at("target") {
        Some(target) => target,
        None => {
            return Err("process injection evidence has no target".to_owned());
        },
    };
    let transition: &str = match evidence.text_at("transition") {
        Some(transition) => transition,
        None => {
            return Err("process injection evidence has no transition".to_owned());
        },
    };
    let before: Option<u64> = evidence.u64_at("before_pid");
    let after: Option<u64> = evidence.u64_at("after_pid");
    let known: bool = same_text(target, "relay-a") || same_text(target, "relay-b") || same_text(
        target,
        "provider-a",
    ) || same_text(target, "provider-b") || same_text(target, "wallet-driver");
    if !known || !same_text(transition, "process_replaced_and_ready") || !process_id(before)
        || !process_id(after) || before == after {
        return Err("injection evidence does not prove one bounded process replacement".to_owned());
    }
    Ok(())
}

/// What evidence of a crash between signing rounds reads as.
pub open spec fn cooperative_crash_reading(evidence: Map<Seq<char>, JsonView>) -> Result<
    (),
    Seq<char>,
> {
    let before = counted(evidence, "before_pid"@);
    let after = counted(evidence, "after_pid"@);
    if !(shaped_by(
        evidence,
        seq![
            "target"@,
            "before_pid"@,
            "after_pid"@,
            "transition"@,
            "state_boundary_unchanged"@,
        ],
    ) && targets_provider(evidence) && said(evidence, "transition"@) == Some(
        "process_replaced_same_database_and_wallet_file"@,
    ) && bool_of(member(JsonView::Object(evidence), "state_boundary_unchanged"@)) == Some(true)) {
        Err("cooperative crash evidence has another shape"@)
    } else if is_process_id(before) && is_process_id(after) && before != after {
        Ok(())
    } else {
        Err("cooperative crash did not replace one provider process"@)
    }
}

/// What evidence of a crash between signing rounds reads as: it holds exactly where every one of
/// these conditions does.
pub proof fn law_cooperative_crash_holds_by_its_parts(evidence: Map<Seq<char>, JsonView>)
    ensures
        ({
            let read = cooperative_crash_reading(evidence);
            let before = counted(evidence, "before_pid"@);
            let after = counted(evidence, "after_pid"@);
            &&& read is Ok <==> {
                &&& shaped_by(
                        evidence,
                        seq![
                            "target"@,
                            "before_pid"@,
                            "after_pid"@,
                            "transition"@,
                            "state_boundary_unchanged"@,
                        ],
                    )
                    && targets_provider(evidence)
                    && said(evidence, "transition"@) == Some(
                        "process_replaced_same_database_and_wallet_file"@,
                    )
                    && bool_of(
                        member(JsonView::Object(evidence), "state_boundary_unchanged"@),
                    ) == Some(true)
                &&& is_process_id(before)
                &&& is_process_id(after)
                &&& before != after
            }
        }),
{
}

/// Checks that evidence shows a provider replaced on the same database and wallet file.
pub fn validate_cooperative_crash_evidence(evidence: &JsonObject) -> (checked: Result<(), String>)
    ensures
        told(checked) == cooperative_crash_reading(evidence@),
{
    let names: Vec<&'static str> =
        vec!["target", "before_pid", "after_pid", "transition", "state_boundary_unchanged"];
    assert(name_views(names@) =~= seq![
        "target"@,
        "before_pid"@,
        "after_pid"@,
        "transition"@,
        "state_boundary_unchanged"@,
    ]);
    let unchanged: bool = match evidence.bool_at("state_boundary_unchanged") {
        Some(unchanged) => unchanged,
        None => false,
    };
    if !evidence.is_shaped(&names) || !(evidence.says("target", "provider-a") || evidence.says(
        "target",
        "provider-b",
    )) || !evidence.says("transition", "process_replaced_same_database_and_wallet_file")
        || !unchanged {
        return Err("cooperative crash evidence has another shape".to_owned());
    }
    let before: Option<u64> = evidence.u64_at("before_pid");
    let after: Option<u64> = evidence.u64_at("after_pid");
    if !process_id(before) || !process_id(after) || before == after {
        return Err("cooperative crash did not replace one provider process".to_owned());
    }
    Ok(())
}

/// The transition, the wait state and the recovery state that a reorganisation has to show.
pub open spec fn reorg_texts(injection: HarnessInjection) -> Option<
    (Seq<char>, Seq<char>, Seq<char>),
> {
    match injection {
        HarnessInjection::FundingReorg => Some(
            (
                "funding_reorg_waited_and_resumed"@,
                "funding_observed_without_finality"@,
                "funding_final_after_reconfirmation"@,
            ),
        ),
        HarnessInjection::ClaimReorg => Some(
            (
                "claim_watch_reorged_and_reconfirmed"@,
                "claim_watch_confirmed"@,
                "claim_watch_reorg_then_reconfirmed"@,
            ),
        ),
        _ => None,
    }
}

/// What a hash of the evidence reads as.
pub open spec fn hash_reading(evidence: Map<Seq<char>, JsonView>, name: Seq<char>) -> Result<
    (),
    Seq<char>,
> {
    match said(evidence, name) {
        None => Err("chain recovery evidence has no "@ + name),
        Some(hash) => if is_lower_hex_32(hash) {
            Ok(())
        } else {
            Err(name + " is not lowercase 32-byte hex"@)
        },
    }
}

/// The members of reorganisation evidence.
pub open spec fn reorg_names() -> Seq<Seq<char>> {
    seq![
        "target"@,
        "transition"@,
        "transaction_id"@,
        "orphaned_block_hash"@,
        "competing_tip_hash"@,
        "reconfirmed_block_hash"@,
        "wait_state"@,
        "recovery_state"@,
    ]
}

/// What evidence of a reorganisation and the recovery from it reads as.
pub open spec fn reorg_reading(
    evidence: Map<Seq<char>, JsonView>,
    injection: HarnessInjection,
) -> Result<(), Seq<char>> {
    match reorg_texts(injection) {
        None => Err("chain recovery validator received another injection"@),
        Some((transition, wait, recovery)) => if !shaped_by(evidence, reorg_names()) || said(
            evidence,
            "target"@,
        ) != Some("provider-a"@) || said(evidence, "transition"@) != Some(transition) {
            Err("chain recovery evidence has another shape or transition"@)
        } else if hash_reading(evidence, "transaction_id"@) is Err {
            hash_reading(evidence, "transaction_id"@)
        } else if hash_reading(evidence, "orphaned_block_hash"@) is Err {
            hash_reading(evidence, "orphaned_block_hash"@)
        } else if hash_reading(evidence, "competing_tip_hash"@) is Err {
            hash_reading(evidence, "competing_tip_hash"@)
        } else if hash_reading(evidence, "reconfirmed_block_hash"@) is Err {
            hash_reading(evidence, "reconfirmed_block_hash"@)
        } else if said(evidence, "wait_state"@) != Some(wait) || said(evidence, "recovery_state"@)
            != Some(recovery) {
            Err("chain recovery evidence does not prove wait and recovery states"@)
        } else {
            Ok(())
        },
    }
}

/// What evidence of a reorganisation and the recovery from it reads as: it holds exactly where
/// every one of these conditions does.
pub proof fn law_reorg_holds_by_its_parts(
    evidence: Map<Seq<char>, JsonView>,
    injection: HarnessInjection,
)
    ensures
        ({
            let read = reorg_reading(evidence, injection);
            &&& read is Ok <==> {
                &&& reorg_texts(injection) is Some
                &&& shaped_by(evidence, reorg_names())
                &&& said(evidence, "target"@) == Some("provider-a"@)
                &&& said(evidence, "transition"@) == Some(reorg_texts(injection)->Some_0.0)
                &&& hash_reading(evidence, "transaction_id"@) is Ok
                &&& hash_reading(evidence, "orphaned_block_hash"@) is Ok
                &&& hash_reading(evidence, "competing_tip_hash"@) is Ok
                &&& hash_reading(evidence, "reconfirmed_block_hash"@) is Ok
                &&& said(evidence, "wait_state"@) == Some(reorg_texts(injection)->Some_0.1)
                &&& said(evidence, "recovery_state"@) == Some(reorg_texts(injection)->Some_0.2)
            }
        }),
{
}

fn check_hash(evidence: &JsonObject, name: &str) -> (checked: Result<(), String>)
    ensures
        told(checked) == hash_reading(evidence@, name@),
{
    match evidence.text_at(name) {
        None => Err(join("chain recovery evidence has no ", name)),
        Some(hash) => require_lower_hex_32(hash, name),
    }
}

/// Checks that evidence shows a reorganisation and the recovery from it.
pub fn validate_chain_recovery_evidence(
    evidence: &JsonObject,
    injection: HarnessInjection,
) -> (checked: Result<(), String>)
    ensures
        told(checked) == reorg_reading(evidence@, injection),
{
    let (transition, wait, recovery): (&'static str, &'static str, &'static str) = match injection {
        HarnessInjection::FundingReorg => (
            "funding_reorg_waited_and_resumed",
            "funding_observed_without_finality",
            "funding_final_after_reconfirmation",
        ),
        HarnessInjection::ClaimReorg => (
            "claim_watch_reorged_and_reconfirmed",
            "claim_watch_confirmed",
            "claim_watch_reorg_then_reconfirmed",
        ),
        _ => {
            return Err("chain recovery validator received another injection".to_owned());
        },
    };
    let names: Vec<&'static str> =
        vec![
        "target",
        "transition",
        "transaction_id",
        "orphaned_block_hash",
        "competing_tip_hash",
        "reconfirmed_block_hash",
        "wait_state",
        "recovery_state",
    ];
    assert(name_views(names@) =~= reorg_names());
    if !evidence.is_shaped(&names) || !evidence.says("target", "provider-a") || !evidence.says(
        "transition",
        transition,
    ) {
        return Err("chain recovery evidence has another shape or transition".to_owned());
    }
    match check_hash(evidence, "transaction_id") {
        Ok(_) => {},
        Err(message) => {
            return Err(message);
        },
    }
    match check_hash(evidence, "orphaned_block_hash") {
        Ok(_) => {},
        Err(message) => {
            return Err(message);
        },
    }
    match check_hash(evidence, "competing_tip_hash") {
        Ok(_) => {},
        Err(message) => {
            return Err(message);
        },
    }
    match check_hash(evidence, "reconfirmed_block_hash") {
        Ok(_) => {},
        Err(message) => {
            return Err(message);
        },
    }
    if !evidence.says("wait_state", wait) || !evidence.says("recovery_state", recovery) {
        return Err("chain recovery evidence does not prove wait and recovery states".to_owned());
    }
    Ok(())
}

/// What evidence of an injected fault reads as, by the kind of the fault.
pub open spec fn evidence_reading(
    evidence: Map<Seq<char>, JsonView>,
    injection: HarnessInjection,
) -> Result<(), Seq<char>> {
    match injection {
        HarnessInjection::RelayLoss
        | HarnessInjection::ProviderCrash
        | HarnessInjection::WalletCrash => replacement_reading(evidence),
        HarnessInjection::CooperativeCrashCut => cooperative_crash_reading(evidence),
        HarnessInjection::ProviderNoncooperative => if shows_process_stopped(evidence) {
            Ok(())
        } else {
            Err("provider stop evidence has another shape"@)
        },
        HarnessInjection::FundingReorg | HarnessInjection::ClaimReorg => reorg_reading(
            evidence,
            injection,
        ),
        _ => Err("pre-fund injection cannot carry external acknowledgement"@),
    }
}

/// Whether an acknowledgement answers this request of this run.
pub open spec fn binds_recovery(
    document: JsonView,
    run_id: Seq<char>,
    checkpoint: Seq<char>,
    injection: HarnessInjection,
) -> bool {
    &&& member_text(document, "schema"@) == Some("openagents.immortal.lab-injection-ack.v1"@)
    &&& member_text(document, "run_id"@) == Some(run_id)
    &&& member_text(document, "checkpoint"@) == Some(checkpoint)
    &&& member_text(document, "injection"@) == Some(injection.label())
    &&& bool_of(member(document, "restored"@)) == Some(
        injection != HarnessInjection::ProviderNoncooperative,
    )
}

/// What an acknowledgement that has been parsed reads as.
pub open spec fn acknowledgement_reading(
    document: JsonView,
    custody: Option<Seq<char>>,
    run_id: Seq<char>,
    checkpoint: Seq<char>,
    injection: HarnessInjection,
) -> Result<JsonView, Seq<char>> {
    if custody is Some {
        Err("injection continuation contains custody material: "@ + custody->0)
    } else if !binds_recovery(document, run_id, checkpoint, injection) {
        Err("injection continuation does not bind the requested recovery"@)
    } else {
        match members_of(member(document, "evidence"@)) {
            None => Err("injection evidence is not an object"@),
            Some(evidence) => match evidence_reading(evidence, injection) {
                Ok(_) => Ok(document),
                Err(message) => Err(message),
            },
        }
    }
}

/// What an acknowledgement that has been parsed reads as: it can be had exactly where every part
/// that it rests on can, and each part of it is the one that its name says.
pub proof fn law_acknowledgement_is_read_from_its_parts(
    document: JsonView,
    custody: Option<Seq<char>>,
    run_id: Seq<char>,
    checkpoint: Seq<char>,
    injection: HarnessInjection,
)
    ensures
        ({
            let read = acknowledgement_reading(document, custody, run_id, checkpoint, injection);
            let given = read->Ok_0;
            &&& read is Ok <==> {
                &&& custody is None
                &&& binds_recovery(document, run_id, checkpoint, injection)
                &&& members_of(member(document, "evidence"@)) is Some
                &&& evidence_reading(members_of(member(document, "evidence"@))->0, injection) is Ok
            }
            &&& read is Ok ==> {
                &&& given == document
            }
        }),
{
}

/// A document that a fallible call returned, or its message.
pub open spec fn told_json(outcome: Result<Json, String>) -> Result<JsonView, Seq<char>> {
    match outcome {
        Ok(document) => Ok(document@),
        Err(message) => Err(message@),
    }
}

/// Checks a parsed acknowledgement. `custody` is the finding of the custody scan of the document,
/// where it made one.
pub fn check_injection_acknowledgement(
    document: Json,
    custody: Option<&str>,
    run_id: &str,
    checkpoint: &str,
    injection: HarnessInjection,
) -> (checked: Result<Json, String>)
    ensures
        told_json(checked) == acknowledgement_reading(
            document@,
            maybe_str(custody),
            run_id@,
            checkpoint@,
            injection,
        ),
{
    if let Some(finding) = custody {
        return Err(join("injection continuation contains custody material: ", finding));
    }
    let stopped: bool = match injection {
        HarnessInjection::ProviderNoncooperative => true,
        _ => false,
    };
    let restored: bool = match document.bool_at("restored") {
        Some(restored) => restored == !stopped,
        None => false,
    };
    if !document.says("schema", "openagents.immortal.lab-injection-ack.v1") || !document.says(
        "run_id",
        run_id,
    ) || !document.says("checkpoint", checkpoint) || !document.says("injection", injection.name())
        || !restored {
        return Err("injection continuation does not bind the requested recovery".to_owned());
    }
    let evidence: &JsonObject = match document.get("evidence") {
        Some(value) => match value.as_object() {
            Some(evidence) => evidence,
            None => {
                return Err("injection evidence is not an object".to_owned());
            },
        },
        None => {
            return Err("injection evidence is not an object".to_owned());
        },
    };
    let checked: Result<(), String> = match injection {
        HarnessInjection::RelayLoss
        | HarnessInjection::ProviderCrash
        | HarnessInjection::WalletCrash => validate_process_replacement_evidence(evidence),
        HarnessInjection::CooperativeCrashCut => validate_cooperative_crash_evidence(evidence),
        HarnessInjection::ProviderNoncooperative => validate_process_stopped_evidence(evidence),
        HarnessInjection::FundingReorg | HarnessInjection::ClaimReorg => {
            validate_chain_recovery_evidence(evidence, injection)
        },
        _ => Err("pre-fund injection cannot carry external acknowledgement".to_owned()),
    };
    match checked {
        Ok(_) => Ok(document),
        Err(message) => Err(message),
    }
}

/// Reads and checks the acknowledgement of an injected fault. `custody` is the finding of the
/// custody scan of the document, where it made one.
pub fn validate_injection_acknowledgement(
    bytes: &[u8],
    custody: Option<&str>,
    run_id: &str,
    checkpoint: &str,
    injection: HarnessInjection,
) -> (validated: Result<Json, String>)
    ensures
        told_json(validated) == (if bytes@.len() == 0 || bytes@.len() > 4_096 {
            Err("injection continuation is empty or unbounded"@)
        } else {
            match parsed_bytes(bytes@) {
                Err(message) => Err("injection continuation is invalid JSON: "@ + message),
                Ok(document) => acknowledgement_reading(
                    document,
                    maybe_str(custody),
                    run_id@,
                    checkpoint@,
                    injection,
                ),
            }
        }),
{
    if bytes.len() == 0 || bytes.len() > 4_096 {
        return Err("injection continuation is empty or unbounded".to_owned());
    }
    match parse_json_bytes(bytes) {
        Ok(document) => check_injection_acknowledgement(
            document,
            custody,
            run_id,
            checkpoint,
            injection,
        ),
        Err(message) => Err(
            join("injection continuation is invalid JSON: ", message.as_str()),
        ),
    }
}

/// An acknowledgement is accepted for external injections only.
pub proof fn law_only_external_faults_are_acknowledged(
    document: JsonView,
    custody: Option<Seq<char>>,
    run_id: Seq<char>,
    checkpoint: Seq<char>,
    injection: HarnessInjection,
)
    requires
        acknowledgement_reading(document, custody, run_id, checkpoint, injection) is Ok,
    ensures
        injection.is_external(),
        custody is None,
        acknowledgement_reading(document, custody, run_id, checkpoint, injection)->Ok_0 == document,
{
}

/// A controlled stop and an injection never happen at a checkpoint other than the configured one.
pub proof fn law_other_checkpoints_proceed(
    control: StepControl,
    journey: Seq<char>,
    label: Seq<char>,
    safe_to_stop: bool,
)
    requires
        maybe(control.stop_after) != Some(qualified_name(journey, label)),
        maybe(control.inject_at) != Some(qualified_name(journey, label)),
    ensures
        control.checkpoint_reading(journey, label, safe_to_stop) == Ok::<
            Option<HarnessInjection>,
            Seq<char>,
        >(None),
{
}

/// An acknowledged recovery is that of one fault at one checkpoint of one run, and says that what was
/// disturbed is restored exactly where that can be.
pub proof fn law_recovery_acknowledges_one_fault(
    document: JsonView,
    run_id: Seq<char>,
    checkpoint: Seq<char>,
    injection: HarnessInjection,
    other_run: Seq<char>,
    other_checkpoint: Seq<char>,
    other: HarnessInjection,
)
    requires
        binds_recovery(document, run_id, checkpoint, injection),
        binds_recovery(document, other_run, other_checkpoint, other),
    ensures
        run_id == other_run,
        checkpoint == other_checkpoint,
        injection == other,
        bool_of(member(document, "restored"@)) == Some(true) <==> injection
            != HarnessInjection::ProviderNoncooperative,
{
    law_injection_names_differ(injection, other);
}

} // verus!
