//! What a journey reports, and the evidence of several.

use vstd::prelude::*;
use crate::control::told_json;
use crate::journey::{CooperativeJourney, FundedJourney, HarnessInjection};
use crate::json::{
    Json, JsonObject, JsonView, member, member_text, members_of, no_members, text_doc,
};

verus! {

/// What a funded journey reports.
pub open spec fn journey_doc(
    journey: FundedJourney,
    provider: Seq<char>,
    resumed: bool,
    result: JsonView,
) -> JsonView {
    let members = no_members().insert("step"@, text_doc(journey.label())).insert(
        "provider_pubkey"@,
        text_doc(provider),
    ).insert("journey"@, result);
    JsonView::Object(
        if resumed {
            members.insert("resumed"@, JsonView::Bool(true))
        } else {
            members
        },
    )
}

/// What a funded journey reports.
pub fn journey_report(journey: FundedJourney, provider_pubkey: &str, resumed: bool, result: &Json) -> (
    report: Json)
    ensures
        report@ == journey_doc(journey, provider_pubkey@, resumed, result@),
{
    let members: JsonObject = JsonObject::new().with_text("step", journey.name()).with_text(
        "provider_pubkey",
        provider_pubkey,
    ).with("journey", result.copy());
    Json::object(
        if resumed {
            members.with_bool("resumed", true)
        } else {
            members
        },
    )
}

/// What a jointly signed journey reports.
pub open spec fn cooperative_doc(
    journey: CooperativeJourney,
    provider: Seq<char>,
    result: JsonView,
) -> JsonView {
    JsonView::Object(
        no_members().insert("step"@, text_doc(journey.label())).insert(
            "provider_pubkey"@,
            text_doc(provider),
        ).insert("journey"@, result),
    )
}

/// What a jointly signed journey reports: what stands under each of its names.
pub proof fn law_cooperative_says_each_part_by_its_name(
    journey: CooperativeJourney,
    provider: Seq<char>,
    result: JsonView,
)
    ensures
        ({
            let document = cooperative_doc(journey, provider, result);
            &&& member_text(document, "step"@) == Some(journey.label())
            &&& member_text(document, "provider_pubkey"@) == Some(provider)
            &&& member(document, "journey"@) == Some(result)
        }),
{
    reveal_strlit("step");
    reveal_strlit("provider_pubkey");
    reveal_strlit("journey");
    assert("step"@.len() == 4);
    assert("provider_pubkey"@.len() == 15);
    assert("journey"@.len() == 7);
}

/// What a jointly signed journey reports.
pub fn cooperative_report(journey: CooperativeJourney, provider_pubkey: &str, result: &Json) -> (report:
    Json)
    ensures
        report@ == cooperative_doc(journey, provider_pubkey@, result@),
{
    Json::object(
        JsonObject::new().with_text("step", journey.name()).with_text(
            "provider_pubkey",
            provider_pubkey,
        ).with("journey", result.copy()),
    )
}

/// The fault that a jointly signed journey is run with.
pub fn cooperative_injection(journey: CooperativeJourney) -> (injection: Option<HarnessInjection>)
    ensures
        injection == (if journey == CooperativeJourney::CrashCutRecovery {
            Some(HarnessInjection::CooperativeCrashCut)
        } else {
            None
        }),
{
    if journey == CooperativeJourney::CrashCutRecovery {
        Some(HarnessInjection::CooperativeCrashCut)
    } else {
        None
    }
}

/// Whether a journey looks for a checkpoint to go on from, and for the provider to be healthy at
/// its end.
pub open spec fn outlives_provider(journey: FundedJourney) -> bool {
    journey != FundedJourney::SubmarineRefund
}

/// Whether a journey looks for a checkpoint to go on from, and for the provider to be healthy at
/// its end.
pub fn expects_provider(journey: FundedJourney) -> (expects: bool)
    ensures
        expects == outlives_provider(journey),
{
    journey != FundedJourney::SubmarineRefund
}

/// What the report of a journey reads as with the proof of an injected fault.
pub open spec fn controlled_reading(
    report: JsonView,
    injection: Option<HarnessInjection>,
    proof_document: Option<JsonView>,
) -> Result<JsonView, Seq<char>> {
    match injection {
        Some(injection) if injection.is_external() => match proof_document {
            None => Err("external adversarial injection has no retained proof"@),
            Some(document) => match members_of(Some(report)) {
                None => Err("funded journey result is not an object"@),
                Some(members) => Ok(
                    JsonView::Object(members.insert("external_control"@, document)),
                ),
            },
        },
        _ => Ok(report),
    }
}

/// Adds the proof of an injected fault to the report of a journey, where someone outside has to
/// inject it.
pub fn with_external_control(
    report: &Json,
    injection: Option<HarnessInjection>,
    proof_document: Option<&Json>,
) -> (controlled: Result<Json, String>)
    ensures
        told_json(controlled) == controlled_reading(
            report@,
            injection,
            crate::json::seen(proof_document),
        ),
{
    let external: bool = match injection {
        Some(injection) => injection.requires_external_control(),
        None => false,
    };
    if !external {
        return Ok(report.copy());
    }
    let document: &Json = match proof_document {
        Some(document) => document,
        None => {
            return Err("external adversarial injection has no retained proof".to_owned());
        },
    };
    match report.as_object() {
        None => Err("funded journey result is not an object".to_owned()),
        Some(members) => Ok(
            Json::object(members.copy().with("external_control", document.copy())),
        ),
    }
}

/// What the evidence of a journey reads as.
pub open spec fn evidence_of(report: JsonView) -> Result<JsonView, Seq<char>> {
    match member(report, "journey"@) {
        Some(evidence) => Ok(evidence),
        None => Err("funded journey returned no evidence"@),
    }
}

/// What the evidence of a journey reads as: it can be had exactly where every part that it rests on
/// can, and each part of it is the one that its name says.
pub proof fn law_evidence_of_is_read_from_its_parts(report: JsonView)
    ensures
        ({
            let read = evidence_of(report);
            let given = read->Ok_0;
            &&& read is Ok <==> {
                &&& member(report, "journey"@) is Some
            }
            &&& read is Ok ==> {
                &&& given == member(report, "journey"@)->0
            }
        }),
{
}

/// The evidence that the report of a journey carries.
pub fn journey_evidence(report: &Json) -> (evidence: Result<Json, String>)
    ensures
        told_json(evidence) == evidence_of(report@),
{
    match report.get("journey") {
        Some(evidence) => Ok(evidence.copy()),
        None => Err("funded journey returned no evidence".to_owned()),
    }
}

/// The evidence of the three journeys of a smoke test.
pub open spec fn smoke_doc(
    provider: Seq<char>,
    submarine: JsonView,
    reverse: JsonView,
    reverse_refund: JsonView,
) -> JsonView {
    JsonView::Object(
        no_members().insert(
            "schema"@,
            text_doc("openagents.immortal.provider-funded-smoke-evidence.v1"@),
        ).insert(
            "daemon"@,
            JsonView::Object(
                no_members().insert("health_ready"@, JsonView::Bool(true)).insert(
                    "provider_pubkey"@,
                    text_doc(provider),
                ),
            ),
        ).insert(
            "journeys"@,
            JsonView::Object(
                no_members().insert("submarine"@, submarine).insert("reverse"@, reverse).insert(
                    "reverse_refund"@,
                    reverse_refund,
                ),
            ),
        ),
    )
}

/// The evidence of the three journeys of a smoke test: what stands under each of its names.
pub proof fn law_smoke_says_each_part_by_its_name(
    provider: Seq<char>,
    submarine: JsonView,
    reverse: JsonView,
    reverse_refund: JsonView,
)
    ensures
        ({
            let document = smoke_doc(provider, submarine, reverse, reverse_refund);
            &&& member_text(document, "schema"@) == Some(
                "openagents.immortal.provider-funded-smoke-evidence.v1"@,
            )
            &&& member(document, "daemon"@) == Some(
                JsonView::Object(
                    no_members()
                        .insert("health_ready"@, JsonView::Bool(true))
                        .insert("provider_pubkey"@, text_doc(provider)),
                ),
            )
            &&& member(document, "journeys"@) == Some(
                JsonView::Object(
                    no_members()
                        .insert("submarine"@, submarine)
                        .insert("reverse"@, reverse)
                        .insert("reverse_refund"@, reverse_refund),
                ),
            )
        }),
{
    reveal_strlit("schema");
    reveal_strlit("daemon");
    reveal_strlit("journeys");
    assert("schema"@.len() == 6);
    assert("daemon"@.len() == 6);
    assert("journeys"@.len() == 8);
    assert("schema"@[0] == 's');
    assert("daemon"@[0] == 'd');
}

/// What the reports of the three journeys of a smoke test read as.
pub open spec fn smoke_reading(
    provider: Seq<char>,
    submarine: JsonView,
    reverse: JsonView,
    reverse_refund: JsonView,
) -> Result<JsonView, Seq<char>> {
    match evidence_of(submarine) {
        Err(message) => Err(message),
        Ok(submarine) => match evidence_of(reverse) {
            Err(message) => Err(message),
            Ok(reverse) => match evidence_of(reverse_refund) {
                Err(message) => Err(message),
                Ok(reverse_refund) => Ok(smoke_doc(provider, submarine, reverse, reverse_refund)),
            },
        },
    }
}

/// What the reports of the three journeys of a smoke test read as: it can be had exactly where
/// every part that it rests on can, and each part of it is the one that its name says.
pub proof fn law_smoke_is_read_from_its_parts(
    provider: Seq<char>,
    submarine: JsonView,
    reverse: JsonView,
    reverse_refund: JsonView,
)
    ensures
        ({
            let read = smoke_reading(provider, submarine, reverse, reverse_refund);
            let given = read->Ok_0;
            &&& read is Ok <==> {
                &&& evidence_of(submarine) is Ok
                &&& evidence_of(reverse) is Ok
                &&& evidence_of(reverse_refund) is Ok
            }
            &&& read is Ok ==> {
                &&& given == smoke_doc(
                    provider,
                    evidence_of(submarine)->Ok_0,
                    evidence_of(reverse)->Ok_0,
                    evidence_of(reverse_refund)->Ok_0,
                )
            }
        }),
{
}

/// The evidence of the three journeys of a smoke test.
pub fn smoke_document(
    provider_pubkey: &str,
    submarine: Json,
    reverse: Json,
    reverse_refund: Json,
) -> (document: Json)
    ensures
        document@ == smoke_doc(provider_pubkey@, submarine@, reverse@, reverse_refund@),
{
    let daemon: Json = Json::object(
        JsonObject::new().with_bool("health_ready", true).with_text(
            "provider_pubkey",
            provider_pubkey,
        ),
    );
    let journeys: Json = Json::object(
        JsonObject::new().with("submarine", submarine).with("reverse", reverse).with(
            "reverse_refund",
            reverse_refund,
        ),
    );
    Json::object(
        JsonObject::new().with_text(
            "schema",
            "openagents.immortal.provider-funded-smoke-evidence.v1",
        ).with("daemon", daemon).with("journeys", journeys),
    )
}

/// The evidence of a smoke test, from what its three journeys report.
pub fn run_funded_smoke(
    provider_pubkey: &str,
    submarine: &Json,
    reverse: &Json,
    reverse_refund: &Json,
) -> (evidence: Result<Json, String>)
    ensures
        told_json(evidence) == smoke_reading(
            provider_pubkey@,
            submarine@,
            reverse@,
            reverse_refund@,
        ),
{
    let submarine: Json = journey_evidence(submarine)?;
    let reverse: Json = journey_evidence(reverse)?;
    let reverse_refund: Json = journey_evidence(reverse_refund)?;
    Ok(smoke_document(provider_pubkey, submarine, reverse, reverse_refund))
}

/// What a journey comes to is what its report gives as evidence, also once the proof of a fault has
/// been added.
pub proof fn law_report_gives_its_result(
    journey: FundedJourney,
    provider: Seq<char>,
    resumed: bool,
    result: JsonView,
    injection: Option<HarnessInjection>,
    proof_document: Option<JsonView>,
)
    ensures
        evidence_of(journey_doc(journey, provider, resumed, result)) == Ok::<JsonView, Seq<char>>(
            result,
        ),
        controlled_reading(
            journey_doc(journey, provider, resumed, result),
            injection,
            proof_document,
        ) matches Ok(report) ==> evidence_of(report) == Ok::<JsonView, Seq<char>>(result),
{
    reveal_strlit("journey");
    reveal_strlit("resumed");
    reveal_strlit("external_control");
    assert("journey"@[0] != "resumed"@[0]);
    assert("journey"@.len() != "external_control"@.len());
}

} // verus!
