//! What a run writes down of itself, so that a later process can go on with it.

use vstd::prelude::*;
use crate::control::{FundedCheckpoint, FundedInjectionRequest};
use crate::json::{
    Json, JsonObject, JsonView, bool_of, member, member_text, no_members, number_doc, text_doc,
    u64_of,
};
use crate::text::join;

verus! {

/// A point of a journey, as it is recorded.
#[verifier::ext_equal]
pub struct FundedCheckpointView {
    pub schema: Seq<char>,
    pub run_id: Seq<char>,
    pub journey: Seq<char>,
    pub label: Seq<char>,
    pub safe_to_stop: bool,
    pub updated_at: u64,
    pub details: JsonView,
}

impl View for FundedCheckpoint {
    type V = FundedCheckpointView;

    open spec fn view(&self) -> FundedCheckpointView {
        FundedCheckpointView {
            schema: self.schema@,
            run_id: self.run_id@,
            journey: self.journey@,
            label: self.label@,
            safe_to_stop: self.safe_to_stop,
            updated_at: self.updated_at,
            details: self.details@,
        }
    }
}

/// A request that someone outside the harness bring a fault about.
#[verifier::ext_equal]
pub struct FundedInjectionRequestView {
    pub schema: Seq<char>,
    pub run_id: Seq<char>,
    pub journey: Seq<char>,
    pub checkpoint: Seq<char>,
    pub injection: Seq<char>,
    pub requested_at: u64,
}

impl View for FundedInjectionRequest {
    type V = FundedInjectionRequestView;

    open spec fn view(&self) -> FundedInjectionRequestView {
        FundedInjectionRequestView {
            schema: self.schema@,
            run_id: self.run_id@,
            journey: self.journey@,
            checkpoint: self.checkpoint@,
            injection: self.injection@,
            requested_at: self.requested_at,
        }
    }
}

/// The complaint that something written down has no such member.
pub open spec fn lacks(name: Seq<char>) -> Seq<char> {
    "a file of this run has no "@ + name
}

/// The text member of something written down.
pub open spec fn kept_text(document: JsonView, name: Seq<char>) -> Result<Seq<char>, Seq<char>> {
    match member_text(document, name) {
        Some(text) => Ok(text),
        None => Err(lacks(name)),
    }
}

/// The text member of something written down: it can be had exactly where every part that it rests
/// on can, and each part of it is the one that its name says.
pub proof fn law_kept_text_is_read_from_its_parts(document: JsonView, name: Seq<char>)
    ensures
        ({
            let read = kept_text(document, name);
            let given = read->Ok_0;
            &&& read is Ok <==> {
                &&& member_text(document, name) is Some
            }
            &&& read is Ok ==> {
                &&& given == member_text(document, name)->0
            }
        }),
{
}

/// The number member of something written down.
pub open spec fn kept_number(document: JsonView, name: Seq<char>) -> Result<u64, Seq<char>> {
    match u64_of(member(document, name)) {
        Some(number) => Ok(number),
        None => Err(lacks(name)),
    }
}

/// The number member of something written down: it can be had exactly where every part that it
/// rests on can, and each part of it is the one that its name says.
pub proof fn law_kept_number_is_read_from_its_parts(document: JsonView, name: Seq<char>)
    ensures
        ({
            let read = kept_number(document, name);
            let given = read->Ok_0;
            &&& read is Ok <==> {
                &&& u64_of(member(document, name)) is Some
            }
            &&& read is Ok ==> {
                &&& given == u64_of(member(document, name))->0
            }
        }),
{
}

fn text_in(document: &Json, name: &str) -> (text: Result<String, String>)
    ensures
        crate::text::told_text(text) == kept_text(document@, name@),
{
    match document.text_at(name) {
        Some(text) => Ok(text.to_owned()),
        None => Err(join("a file of this run has no ", name)),
    }
}

fn number_in(document: &Json, name: &str) -> (number: Result<u64, String>)
    ensures
        crate::text::told(number) == kept_number(document@, name@),
{
    match document.u64_at(name) {
        Some(number) => Ok(number),
        None => Err(join("a file of this run has no ", name)),
    }
}

/// A checkpoint as it is written down.
pub open spec fn checkpoint_doc(checkpoint: FundedCheckpointView) -> JsonView {
    JsonView::Object(
        no_members().insert("schema"@, text_doc(checkpoint.schema)).insert(
            "run_id"@,
            text_doc(checkpoint.run_id),
        ).insert("journey"@, text_doc(checkpoint.journey)).insert(
            "label"@,
            text_doc(checkpoint.label),
        ).insert("safe_to_stop"@, JsonView::Bool(checkpoint.safe_to_stop)).insert(
            "updated_at"@,
            number_doc(checkpoint.updated_at),
        ).insert("details"@, checkpoint.details),
    )
}

/// A checkpoint as it is written down: what stands under each of its names.
pub proof fn law_checkpoint_says_each_part_by_its_name(checkpoint: FundedCheckpointView)
    ensures
        ({
            let document = checkpoint_doc(checkpoint);
            &&& member_text(document, "schema"@) == Some(checkpoint.schema)
            &&& member_text(document, "run_id"@) == Some(checkpoint.run_id)
            &&& member_text(document, "journey"@) == Some(checkpoint.journey)
            &&& member_text(document, "label"@) == Some(checkpoint.label)
            &&& member(document, "safe_to_stop"@) == Some(JsonView::Bool(checkpoint.safe_to_stop))
            &&& member(document, "updated_at"@) == Some(number_doc(checkpoint.updated_at))
            &&& member(document, "details"@) == Some(checkpoint.details)
        }),
{
    reveal_strlit("schema");
    reveal_strlit("run_id");
    reveal_strlit("journey");
    reveal_strlit("label");
    reveal_strlit("safe_to_stop");
    reveal_strlit("updated_at");
    reveal_strlit("details");
    assert("schema"@.len() == 6);
    assert("run_id"@.len() == 6);
    assert("journey"@.len() == 7);
    assert("label"@.len() == 5);
    assert("safe_to_stop"@.len() == 12);
    assert("updated_at"@.len() == 10);
    assert("details"@.len() == 7);
    assert("schema"@[0] == 's');
    assert("run_id"@[0] == 'r');
    assert("journey"@[0] == 'j');
    assert("details"@[0] == 'd');
}

/// A checkpoint as it is written down.
pub fn checkpoint_document(checkpoint: &FundedCheckpoint) -> (document: Json)
    ensures
        document@ == checkpoint_doc(checkpoint@),
{
    Json::object(
        JsonObject::new().with_text("schema", checkpoint.schema.as_str()).with_text(
            "run_id",
            checkpoint.run_id.as_str(),
        ).with_text("journey", checkpoint.journey.as_str()).with_text(
            "label",
            checkpoint.label.as_str(),
        ).with_bool("safe_to_stop", checkpoint.safe_to_stop).with_number(
            "updated_at",
            checkpoint.updated_at,
        ).with("details", checkpoint.details.copy()),
    )
}

/// What a checkpoint that was written down reads as.
pub open spec fn checkpoint_reading(document: JsonView) -> Result<FundedCheckpointView, Seq<char>> {
    match kept_text(document, "schema"@) {
        Err(message) => Err(message),
        Ok(schema) => match kept_text(document, "run_id"@) {
            Err(message) => Err(message),
            Ok(run_id) => match kept_text(document, "journey"@) {
                Err(message) => Err(message),
                Ok(journey) => match kept_text(document, "label"@) {
                    Err(message) => Err(message),
                    Ok(label) => match bool_of(member(document, "safe_to_stop"@)) {
                        None => Err(lacks("safe_to_stop"@)),
                        Some(safe_to_stop) => match kept_number(document, "updated_at"@) {
                            Err(message) => Err(message),
                            Ok(updated_at) => match member(document, "details"@) {
                                None => Err(lacks("details"@)),
                                Some(details) => Ok(
                                    FundedCheckpointView {
                                        schema,
                                        run_id,
                                        journey,
                                        label,
                                        safe_to_stop,
                                        updated_at,
                                        details,
                                    },
                                ),
                            },
                        },
                    },
                },
            },
        },
    }
}

/// What a checkpoint that was written down reads as: it can be had exactly where every part that it
/// rests on can, and each part of it is the one that its name says.
pub proof fn law_checkpoint_is_read_from_its_parts(document: JsonView)
    ensures
        ({
            let read = checkpoint_reading(document);
            let given = read->Ok_0;
            &&& read is Ok <==> {
                &&& kept_text(document, "schema"@) is Ok
                &&& kept_text(document, "run_id"@) is Ok
                &&& kept_text(document, "journey"@) is Ok
                &&& kept_text(document, "label"@) is Ok
                &&& bool_of(member(document, "safe_to_stop"@)) is Some
                &&& kept_number(document, "updated_at"@) is Ok
                &&& member(document, "details"@) is Some
            }
            &&& read is Ok ==> {
                &&& given.schema == kept_text(document, "schema"@)->Ok_0
                &&& given.run_id == kept_text(document, "run_id"@)->Ok_0
                &&& given.journey == kept_text(document, "journey"@)->Ok_0
                &&& given.label == kept_text(document, "label"@)->Ok_0
                &&& given.safe_to_stop == bool_of(member(document, "safe_to_stop"@))->0
                &&& given.updated_at == kept_number(document, "updated_at"@)->Ok_0
                &&& given.details == member(document, "details"@)->0
            }
        }),
{
}

/// A checkpoint that was written down.
pub fn read_checkpoint(document: &Json) -> (outcome: Result<FundedCheckpoint, String>)
    ensures
        (match outcome {
            Ok(checkpoint) => Ok(checkpoint@),
            Err(message) => Err(message@),
        }) == checkpoint_reading(document@),
{
    let schema: String = text_in(document, "schema")?;
    let run_id: String = text_in(document, "run_id")?;
    let journey: String = text_in(document, "journey")?;
    let label: String = text_in(document, "label")?;
    let safe_to_stop: bool = match document.bool_at("safe_to_stop") {
        Some(flag) => flag,
        None => {
            return Err(join("a file of this run has no ", "safe_to_stop"));
        },
    };
    let updated_at: u64 = number_in(document, "updated_at")?;
    match document.get("details") {
        Some(details) => Ok(
            FundedCheckpoint {
                schema,
                run_id,
                journey,
                label,
                safe_to_stop,
                updated_at,
                details: details.copy(),
            },
        ),
        None => Err(join("a file of this run has no ", "details")),
    }
}

/// A request for a fault as it is written down.
pub open spec fn injection_doc(request: FundedInjectionRequestView) -> JsonView {
    JsonView::Object(
        no_members().insert("schema"@, text_doc(request.schema)).insert(
            "run_id"@,
            text_doc(request.run_id),
        ).insert("journey"@, text_doc(request.journey)).insert(
            "checkpoint"@,
            text_doc(request.checkpoint),
        ).insert("injection"@, text_doc(request.injection)).insert(
            "requested_at"@,
            number_doc(request.requested_at),
        ),
    )
}

/// A request for a fault as it is written down: what stands under each of its names.
pub proof fn law_injection_says_each_part_by_its_name(request: FundedInjectionRequestView)
    ensures
        ({
            let document = injection_doc(request);
            &&& member_text(document, "schema"@) == Some(request.schema)
            &&& member_text(document, "run_id"@) == Some(request.run_id)
            &&& member_text(document, "journey"@) == Some(request.journey)
            &&& member_text(document, "checkpoint"@) == Some(request.checkpoint)
            &&& member_text(document, "injection"@) == Some(request.injection)
            &&& member(document, "requested_at"@) == Some(number_doc(request.requested_at))
        }),
{
    reveal_strlit("schema");
    reveal_strlit("run_id");
    reveal_strlit("journey");
    reveal_strlit("checkpoint");
    reveal_strlit("injection");
    reveal_strlit("requested_at");
    assert("schema"@.len() == 6);
    assert("run_id"@.len() == 6);
    assert("journey"@.len() == 7);
    assert("checkpoint"@.len() == 10);
    assert("injection"@.len() == 9);
    assert("requested_at"@.len() == 12);
    assert("schema"@[0] == 's');
    assert("run_id"@[0] == 'r');
}

/// A request for a fault as it is written down.
pub fn injection_document(request: &FundedInjectionRequest) -> (document: Json)
    ensures
        document@ == injection_doc(request@),
{
    Json::object(
        JsonObject::new().with_text("schema", request.schema.as_str()).with_text(
            "run_id",
            request.run_id.as_str(),
        ).with_text("journey", request.journey.as_str()).with_text(
            "checkpoint",
            request.checkpoint.as_str(),
        ).with_text("injection", request.injection.as_str()).with_number(
            "requested_at",
            request.requested_at,
        ),
    )
}

/// What a request for a fault that was written down reads as.
pub open spec fn injection_reading(document: JsonView) -> Result<
    FundedInjectionRequestView,
    Seq<char>,
> {
    match kept_text(document, "schema"@) {
        Err(message) => Err(message),
        Ok(schema) => match kept_text(document, "run_id"@) {
            Err(message) => Err(message),
            Ok(run_id) => match kept_text(document, "journey"@) {
                Err(message) => Err(message),
                Ok(journey) => match kept_text(document, "checkpoint"@) {
                    Err(message) => Err(message),
                    Ok(checkpoint) => match kept_text(document, "injection"@) {
                        Err(message) => Err(message),
                        Ok(injection) => match kept_number(document, "requested_at"@) {
                            Err(message) => Err(message),
                            Ok(requested_at) => Ok(
                                FundedInjectionRequestView {
                                    schema,
                                    run_id,
                                    journey,
                                    checkpoint,
                                    injection,
                                    requested_at,
                                },
                            ),
                        },
                    },
                },
            },
        },
    }
}

/// What a request for a fault that was written down reads as: it can be had exactly where every
/// part that it rests on can, and each part of it is the one that its name says.
pub proof fn law_injection_is_read_from_its_parts(document: JsonView)
    ensures
        ({
            let read = injection_reading(document);
            let given = read->Ok_0;
            &&& read is Ok <==> {
                &&& kept_text(document, "schema"@) is Ok
                &&& kept_text(document, "run_id"@) is Ok
                &&& kept_text(document, "journey"@) is Ok
                &&& kept_text(document, "checkpoint"@) is Ok
                &&& kept_text(document, "injection"@) is Ok
                &&& kept_number(document, "requested_at"@) is Ok
            }
            &&& read is Ok ==> {
                &&& given.schema == kept_text(document, "schema"@)->Ok_0
                &&& given.run_id == kept_text(document, "run_id"@)->Ok_0
                &&& given.journey == kept_text(document, "journey"@)->Ok_0
                &&& given.checkpoint == kept_text(document, "checkpoint"@)->Ok_0
                &&& given.injection == kept_text(document, "injection"@)->Ok_0
                &&& given.requested_at == kept_number(document, "requested_at"@)->Ok_0
            }
        }),
{
}

/// A request for a fault that was written down.
pub fn read_injection(document: &Json) -> (outcome: Result<FundedInjectionRequest, String>)
    ensures
        (match outcome {
            Ok(request) => Ok(request@),
            Err(message) => Err(message@),
        }) == injection_reading(document@),
{
    Ok(
        FundedInjectionRequest {
            schema: text_in(document, "schema")?,
            run_id: text_in(document, "run_id")?,
            journey: text_in(document, "journey")?,
            checkpoint: text_in(document, "checkpoint")?,
            injection: text_in(document, "injection")?,
            requested_at: number_in(document, "requested_at")?,
        },
    )
}

/// A checkpoint reads back as it was written down.
pub proof fn law_checkpoint_reads_back(checkpoint: FundedCheckpointView)
    ensures
        checkpoint_reading(checkpoint_doc(checkpoint)) == Ok::<FundedCheckpointView, Seq<char>>(
            checkpoint,
        ),
{
    reveal_strlit("schema");
    reveal_strlit("run_id");
    reveal_strlit("journey");
    reveal_strlit("label");
    reveal_strlit("safe_to_stop");
    reveal_strlit("updated_at");
    reveal_strlit("details");
    assert("schema"@[0] == 's' && "run_id"@[0] == 'r' && "journey"@[0] == 'j');
    assert("label"@[0] == 'l' && "updated_at"@[0] == 'u' && "details"@[0] == 'd');
    assert("schema"@.len() == 6 && "safe_to_stop"@.len() == 12);
    assert("safe_to_stop"@[0] == 's');
}

/// A request for a fault reads back as it was written down.
pub proof fn law_injection_reads_back(request: FundedInjectionRequestView)
    ensures
        injection_reading(injection_doc(request)) == Ok::<FundedInjectionRequestView, Seq<char>>(
            request,
        ),
{
    reveal_strlit("schema");
    reveal_strlit("run_id");
    reveal_strlit("journey");
    reveal_strlit("checkpoint");
    reveal_strlit("injection");
    reveal_strlit("requested_at");
    assert("schema"@[0] == 's' && "run_id"@[0] == 'r' && "journey"@[0] == 'j');
    assert("checkpoint"@[0] == 'c' && "injection"@[0] == 'i' && "requested_at"@[0] == 'r');
    assert("run_id"@.len() == 6 && "requested_at"@.len() == 12);
}

} // verus!
