//! The requester's status stream: what it may say next and what it builds on.

use vstd::prelude::*;
use vstd::string::*;
use crate::amount::{parse_u64, parsed_u64};
use crate::journey::CooperativeAction;
use crate::json::{Json, JsonObject, JsonView, members_of, members_within, text_doc};
use crate::control::{said, told_json};
use crate::record::{
    Event, RecordKinds, exactly_one_status_by_author_and_state, has_only_tag, in_state,
    profile_reading, record_is_in_state, record_profile, state_of, tag_values, texts,
};
use crate::text::{join3, maybe, maybe_str, same_text, told};

verus! {

/// The provider state that a requester state builds on.
pub open spec fn prerequisite_of(state: Seq<char>) -> Option<Seq<char>> {
    if state == "requester_verification_passed"@ {
        Some("lock_terms_ready"@)
    } else if state == "requester_invoice_verified"@ {
        Some("hold_invoice_ready"@)
    } else if state == "requester_lock_verified"@ {
        Some("provider_lock_terms_ready"@)
    } else if state == "requester_claim_pending"@ {
        Some("funding_final"@)
    } else if state == "requester_source_verified"@ {
        Some("source_lock_terms_ready"@)
    } else if state == "requester_destination_verified"@ {
        Some("destination_lock_terms_ready"@)
    } else if state == "requester_source_broadcast"@ {
        Some("source_funding_required"@)
    } else if state == "requester_destination_claim_pending"@ {
        Some("destination_funding_final"@)
    } else if state == "requester_source_refund_pending"@ {
        Some("provider_destination_refunded"@)
    } else {
        None
    }
}

/// The provider state that a requester state builds on.
pub fn requester_status_provider_prerequisite(state: &str) -> (prerequisite: Option<&'static str>)
    ensures
        maybe_str(prerequisite) == prerequisite_of(state@),
{
    if same_text(state, "requester_verification_passed") {
        Some("lock_terms_ready")
    } else if same_text(state, "requester_invoice_verified") {
        Some("hold_invoice_ready")
    } else if same_text(state, "requester_lock_verified") {
        Some("provider_lock_terms_ready")
    } else if same_text(state, "requester_claim_pending") {
        Some("funding_final")
    } else if same_text(state, "requester_source_verified") {
        Some("source_lock_terms_ready")
    } else if same_text(state, "requester_destination_verified") {
        Some("destination_lock_terms_ready")
    } else if same_text(state, "requester_source_broadcast") {
        Some("source_funding_required")
    } else if same_text(state, "requester_destination_claim_pending") {
        Some("destination_funding_final")
    } else if same_text(state, "requester_source_refund_pending") {
        Some("provider_destination_refunded")
    } else {
        None
    }
}

/// The base state that a requester state belongs to.
pub open spec fn base_of(state: Seq<char>) -> Option<Seq<char>> {
    if state == "requester_verification_passed"@ || state == "requester_invoice_verified"@ || state == "requester_lock_verified"@ || state == "requester_source_verified"@ || state == "requester_destination_verified"@ {
        Some("awaiting_input"@)
    } else if state == "requester_funding_broadcast"@ || state == "requester_source_broadcast"@ {
        Some("funding_observed"@)
    } else if state == "lightning_payment_pending"@ || state == "requester_claim_pending"@ || state == "requester_claimed"@ || state == "requester_destination_claim_pending"@ || state == "requester_destination_claimed"@ {
        Some("executing"@)
    } else if state == "refund_prepared"@ || state == "refund_pending"@ {
        Some("refund_pending"@)
    } else if state == "refunded"@ {
        Some("refunded"@)
    } else {
        None
    }
}

/// The base state that a requester state belongs to.
pub fn base_state(state: &str) -> (base: Result<&'static str, String>)
    ensures
        match base {
            Ok(base) => base_of(state@) == Some(base@),
            Err(message) => base_of(state@) is None && message@
                == "requester state has no smoke base-state mapping"@,
        },
{
    if same_text(state, "requester_verification_passed") || same_text(state, "requester_invoice_verified") || same_text(state, "requester_lock_verified") || same_text(state, "requester_source_verified") || same_text(state, "requester_destination_verified") {
        Ok("awaiting_input")
    } else if same_text(state, "requester_funding_broadcast") || same_text(state, "requester_source_broadcast") {
        Ok("funding_observed")
    } else if same_text(state, "lightning_payment_pending") || same_text(state, "requester_claim_pending") || same_text(state, "requester_claimed") || same_text(state, "requester_destination_claim_pending") || same_text(state, "requester_destination_claimed") {
        Ok("executing")
    } else if same_text(state, "refund_prepared") || same_text(state, "refund_pending") {
        Ok("refund_pending")
    } else if same_text(state, "refunded") {
        Ok("refunded")
    } else {
        Err("requester state has no smoke base-state mapping".to_owned())
    }
}

/// The one provider record that a requester state builds on, where it builds on one.
pub fn requester_status_provider_prerequisite_event<'a>(
    records: &'a Vec<Event>,
    kinds: RecordKinds,
    provider_pubkey: &str,
    requester_state: &str,
) -> (found: Result<Option<&'a Event>, String>)
    ensures
        match found {
            Ok(None) => prerequisite_of(requester_state@) is None,
            Ok(Some(event)) => prerequisite_of(requester_state@) is Some && records@.filter(
                in_state(kinds.status, provider_pubkey@, prerequisite_of(requester_state@)->0),
            ) == seq![*event],
            Err(message) => {
                &&& prerequisite_of(requester_state@) is Some
                &&& records@.filter(
                    in_state(kinds.status, provider_pubkey@, prerequisite_of(requester_state@)->0),
                ).len() != 1
                &&& message@ == "requester "@ + prerequisite_of(requester_state@)->0
                    + " requires one exact provider prerequisite Status"@
            },
        },
{
    match requester_status_provider_prerequisite(requester_state) {
        None => Ok(None),
        Some(provider_state) => match exactly_one_status_by_author_and_state(
            records,
            kinds,
            provider_pubkey,
            provider_state,
        ) {
            Ok(event) => Ok(Some(event)),
            Err(message) => Err(message),
        },
    }
}

/// The latest time at which a record of a sequence was made.
pub open spec fn newest(records: Seq<Event>) -> u64
    decreases records.len(),
{
    if records.len() == 0 {
        0
    } else {
        let front = newest(records.drop_last());
        if records.last().created_at > front {
            records.last().created_at
        } else {
            front
        }
    }
}

/// One more, up to the largest number.
pub open spec fn one_later(time: u64) -> u64 {
    if time == u64::MAX {
        u64::MAX
    } else {
        (time + 1) as u64
    }
}

/// The time that the next record is made at: now, but later than every record so far.
pub open spec fn next_time(records: Seq<Event>, now: u64) -> u64 {
    let after = one_later(if records.len() == 0 {
        now
    } else {
        newest(records)
    });
    if now > after {
        now
    } else {
        after
    }
}

/// The time that the next record is made at.
pub fn next_created_at_records(records: &Vec<Event>, now: u64) -> (time: u64)
    ensures
        time == next_time(records@, now),
{
    let mut latest: u64 = 0;
    let mut i: usize = 0;
    assert(records@.subrange(0, 0) =~= Seq::<Event>::empty());
    while i < records.len()
        invariant
            i <= records@.len(),
            latest == newest(records@.subrange(0, i as int)),
        decreases records@.len() - i,
    {
        proof {
            let next = records@.subrange(0, i + 1);
            assert(next.drop_last() =~= records@.subrange(0, i as int));
            assert(next.last() == records@[i as int]);
        }
        if records[i].created_at > latest {
            latest = records[i].created_at;
        }
        i = i + 1;
    }
    assert(records@.subrange(0, i as int) =~= records@);
    let base: u64 = if records.len() == 0 {
        now
    } else {
        latest
    };
    let after: u64 = if base == u64::MAX {
        u64::MAX
    } else {
        base + 1
    };
    if now > after {
        now
    } else {
        after
    }
}

/// A new record is made after every record that it follows, as long as time has not run out.
pub proof fn law_next_record_is_later(records: Seq<Event>, now: u64, place: int)
    requires
        0 <= place < records.len(),
        newest(records) < u64::MAX,
    ensures
        records[place].created_at < next_time(records, now),
        now <= next_time(records, now),
{
    lemma_newest(records, place);
}

proof fn lemma_newest(records: Seq<Event>, place: int)
    requires
        0 <= place < records.len(),
    ensures
        records[place].created_at <= newest(records),
    decreases records.len(),
{
    if place < records.len() - 1 {
        assert(records.drop_last()[place] == records[place]);
        lemma_newest(records.drop_last(), place);
    }
}

/// The sequence number of a status record.
pub open spec fn sequence_of(event: Event) -> Result<u64, Seq<char>> {
    let values = tag_values(event.tags@, "seq"@);
    if values.len() == 0 {
        Err("persisted requester Status has no sequence"@)
    } else {
        match parsed_u64(values[0]) {
            None => Err("persisted requester Status sequence is invalid"@),
            Some(sequence) => Ok(sequence),
        }
    }
}

/// The sequence number of a status record: it can be had exactly where every part that it rests on
/// can, and each part of it is the one that its name says.
pub proof fn law_sequence_of_is_read_from_its_parts(event: Event)
    ensures
        ({
            let read = sequence_of(event);
            let values = tag_values(event.tags@, "seq"@);
            let given = read->Ok_0;
            &&& read is Ok <==> {
                &&& values.len() != 0
                &&& parsed_u64(values[0]) is Some
            }
            &&& read is Ok ==> {
                &&& given == parsed_u64(values[0])->0
            }
        }),
{
}

/// Whether a record is a status of this author.
pub open spec fn is_status_by(event: Event, kind: u16, author: Seq<char>) -> bool {
    event.kind == kind && event.pubkey@ == author
}

/// The latest status of an author: its sequence number and identifier.
pub open spec fn latest_status(records: Seq<Event>, kind: u16, author: Seq<char>) -> Result<
    Option<(u64, Seq<char>)>,
    Seq<char>,
>
    decreases records.len(),
{
    if records.len() == 0 {
        Ok(None)
    } else {
        let event = records.last();
        match latest_status(records.drop_last(), kind, author) {
            Err(message) => Err(message),
            Ok(latest) => if !is_status_by(event, kind, author) {
                Ok(latest)
            } else {
                match sequence_of(event) {
                    Err(message) => Err(message),
                    Ok(sequence) => match latest {
                        None => Ok(Some((sequence, event.id@))),
                        Some((current, id)) => if current == sequence && id != event.id@ {
                            Err("persisted requester Status stream contains a fork"@)
                        } else if current > sequence {
                            Ok(latest)
                        } else {
                            Ok(Some((sequence, event.id@)))
                        },
                    },
                }
            },
        }
    }
}

/// A sequence number and an identifier, where there are some.
pub open spec fn told_latest(outcome: Result<Option<(u64, String)>, String>) -> Result<
    Option<(u64, Seq<char>)>,
    Seq<char>,
> {
    match outcome {
        Ok(Some((sequence, id))) => Ok(Some((sequence, id@))),
        Ok(None) => Ok(None),
        Err(message) => Err(message@),
    }
}

fn read_sequence(event: &Event) -> (sequence: Result<u64, String>)
    ensures
        told(sequence) == sequence_of(*event),
{
    let values: Vec<&str> = event.tag_values("seq");
    assert(texts(values@).len() == values@.len());
    if values.len() == 0 {
        return Err("persisted requester Status has no sequence".to_owned());
    }
    assert(texts(values@)[0] == values@[0]@);
    match parse_u64(values[0]) {
        None => Err("persisted requester Status sequence is invalid".to_owned()),
        Some(sequence) => Ok(sequence),
    }
}

proof fn lemma_latest_error_stays(records: Seq<Event>, kind: u16, author: Seq<char>, end: int)
    requires
        0 <= end <= records.len(),
        latest_status(records.subrange(0, end), kind, author) is Err,
    ensures
        latest_status(records, kind, author) == latest_status(
            records.subrange(0, end),
            kind,
            author,
        ),
    decreases records.len(),
{
    if end < records.len() {
        assert(records.drop_last().subrange(0, end) =~= records.subrange(0, end));
        lemma_latest_error_stays(records.drop_last(), kind, author, end);
    } else {
        assert(records.subrange(0, end) =~= records);
    }
}

/// The latest status of the requester, as long as their stream has no fork there.
pub fn latest_requester_status(
    records: &Vec<Event>,
    kinds: RecordKinds,
    requester_pubkey: &str,
) -> (latest: Result<Option<(u64, String)>, String>)
    ensures
        told_latest(latest) == latest_status(records@, kinds.status, requester_pubkey@),
{
    let mut latest: Option<(u64, String)> = None;
    let mut i: usize = 0;
    assert(records@.subrange(0, 0) =~= Seq::<Event>::empty());
    while i < records.len()
        invariant
            i <= records@.len(),
            told_latest(Ok(latest)) == latest_status(
                records@.subrange(0, i as int),
                kinds.status,
                requester_pubkey@,
            ),
        decreases records@.len() - i,
    {
        let ghost next = records@.subrange(0, i + 1);
        proof {
            assert(next.drop_last() =~= records@.subrange(0, i as int));
            assert(next.last() == records@[i as int]);
        }
        let event: &Event = &records[i];
        if event.kind == kinds.status && same_text(event.pubkey.as_str(), requester_pubkey) {
            let sequence: u64 = match read_sequence(event) {
                Ok(sequence) => sequence,
                Err(message) => {
                    proof {
                        lemma_latest_error_stays(records@, kinds.status, requester_pubkey@, i + 1);
                    }
                    return Err(message);
                },
            };
            let keep: bool = match &latest {
                Some((current, id)) => {
                    if *current == sequence && !same_text(id.as_str(), event.id.as_str()) {
                        proof {
                            lemma_latest_error_stays(
                                records@,
                                kinds.status,
                                requester_pubkey@,
                                i + 1,
                            );
                        }
                        return Err("persisted requester Status stream contains a fork".to_owned());
                    }
                    *current > sequence
                },
                None => false,
            };
            if !keep {
                latest = Some((sequence, event.id.clone()));
            }
        }
        i = i + 1;
    }
    assert(records@.subrange(0, i as int) =~= records@);
    Ok(latest)
}

/// The latest status has the highest sequence number of its author, and no other status has both
/// that number and another identifier.
pub proof fn law_latest_status_is_highest(
    records: Seq<Event>,
    kind: u16,
    author: Seq<char>,
    place: int,
)
    requires
        0 <= place < records.len(),
        is_status_by(records[place], kind, author),
        latest_status(records, kind, author) is Ok,
    ensures
        sequence_of(records[place]) is Ok,
        match latest_status(records, kind, author) {
            Ok(Some((sequence, id))) => {
                &&& sequence_of(records[place])->Ok_0 <= sequence
                &&& sequence_of(records[place])->Ok_0 == sequence ==> records[place].id@ == id
            },
            _ => false,
        },
    decreases records.len(),
{
    if place < records.len() - 1 {
        assert(records.drop_last()[place] == records[place]);
        law_latest_status_is_highest(records.drop_last(), kind, author, place);
    }
}

/// A status of the requester as it is to be signed.
pub struct StatusPlan {
    pub sequence: u64,
    pub previous: Option<String>,
    pub base_state: &'static str,
    pub swp_state: String,
    pub created_at: u64,
    /// The text whose digest keeps this status apart from every other.
    pub distinct: String,
    /// The provider record that the status follows, where it follows one.
    pub prerequisite: Option<String>,
}

/// What saying a state takes.
pub enum StatusStep {
    /// The record at this place says it already.
    Existing(usize),
    /// It is to be signed and published.
    Publish(StatusPlan),
}

/// Whether a record of the requester says a state with these members already.
pub open spec fn says_already(
    event: Event,
    kind: u16,
    author: Seq<char>,
    state: Seq<char>,
    extra: Map<Seq<char>, JsonView>,
) -> bool {
    &&& is_status_by(event, kind, author)
    &&& match profile_reading(event.content@) {
        Ok(profile) => said(profile, "swp_state"@) == Some(state) && members_within(extra, profile),
        Err(_) => false,
    }
}

/// The sequence number that follows the latest status; `None` where there is none left.
pub open spec fn next_sequence(latest: Option<(u64, Seq<char>)>) -> Option<u64> {
    match latest {
        None => Some(0),
        Some((sequence, _)) => if sequence == u64::MAX {
            None
        } else {
            Some((sequence + 1) as u64)
        },
    }
}

/// The identifier that the next status names as the one before it.
pub open spec fn previous_id(latest: Option<(u64, Seq<char>)>) -> Option<Seq<char>> {
    match latest {
        None => None,
        Some((_, id)) => Some(id),
    }
}

/// A sequence number and an identifier, where there are some.
pub open spec fn latest_view(latest: Option<(u64, String)>) -> Option<(u64, Seq<char>)> {
    match latest {
        None => None,
        Some((sequence, id)) => Some((sequence, id@)),
    }
}

/// Whether a plan is the next status after the latest one.
pub open spec fn plans_next(
    plan: StatusPlan,
    records: Seq<Event>,
    kinds: RecordKinds,
    provider: Seq<char>,
    latest: Option<(u64, Seq<char>)>,
    session_id: Seq<char>,
    state: Seq<char>,
    now: u64,
    purpose: Seq<char>,
) -> bool {
    &&& next_sequence(latest) == Some(plan.sequence)
    &&& maybe(plan.previous) == previous_id(latest)
    &&& base_of(state) == Some(plan.base_state@)
    &&& plan.swp_state@ == state
    &&& plan.created_at == next_time(records, now)
    &&& plan.distinct@ == purpose + state + ":"@ + session_id
    &&& match prerequisite_of(state) {
        None => plan.prerequisite is None,
        Some(provider_state) => {
            let found = records.filter(in_state(kinds.status, provider, provider_state));
            found.len() == 1 && maybe(plan.prerequisite) == Some(found[0].id@)
        },
    }
}

/// Why a state cannot be said next.
pub open spec fn status_refusal(
    records: Seq<Event>,
    kinds: RecordKinds,
    provider: Seq<char>,
    latest: Option<(u64, Seq<char>)>,
    state: Seq<char>,
    overflow: Seq<char>,
) -> Option<Seq<char>> {
    if next_sequence(latest) is None {
        Some(overflow)
    } else if base_of(state) is None {
        Some("requester state has no smoke base-state mapping"@)
    } else if prerequisite_of(state) is Some && records.filter(
        in_state(kinds.status, provider, prerequisite_of(state)->0),
    ).len() != 1 {
        Some(
            "requester "@ + prerequisite_of(state)->0
                + " requires one exact provider prerequisite Status"@,
        )
    } else {
        None
    }
}

fn find_said(
    records: &Vec<Event>,
    kind: u16,
    author: &str,
    state: &str,
    extra: &JsonObject,
) -> (found: Option<usize>)
    ensures
        match found {
            Some(i) => {
                &&& i < records@.len()
                &&& says_already(records@[i as int], kind, author@, state@, extra@)
                &&& forall|j: int|
                    0 <= j < i ==> !says_already(
                        #[trigger] records@[j],
                        kind,
                        author@,
                        state@,
                        extra@,
                    )
            },
            None => forall|j: int|
                0 <= j < records@.len() ==> !says_already(
                    #[trigger] records@[j],
                    kind,
                    author@,
                    state@,
                    extra@,
                ),
        },
{
    let mut i: usize = 0;
    while i < records.len()
        invariant
            i <= records@.len(),
            forall|j: int|
                0 <= j < i ==> !says_already(
                    #[trigger] records@[j],
                    kind,
                    author@,
                    state@,
                    extra@,
                ),
        decreases records@.len() - i,
    {
        if records[i].kind == kind && same_text(records[i].pubkey.as_str(), author) {
            match record_profile(&records[i]) {
                Ok(profile) => {
                    if profile.says("swp_state", state) && profile.includes(extra) {
                        return Some(i);
                    }
                },
                Err(_) => {},
            }
        }
        i = i + 1;
    }
    None
}

fn step_sequence(latest: &Option<(u64, String)>) -> (next: Option<(u64, Option<String>)>)
    ensures
        match next {
            Some((sequence, previous)) => {
                &&& next_sequence(latest_view(*latest)) == Some(sequence)
                &&& maybe(previous) == previous_id(latest_view(*latest))
            },
            None => next_sequence(latest_view(*latest)) is None,
        },
{
    match latest {
        Some((sequence, id)) => if *sequence == u64::MAX {
            None
        } else {
            Some((*sequence + 1, Some(id.clone())))
        },
        None => Some((0, None)),
    }
}

fn plan_next_status(
    records: &Vec<Event>,
    kinds: RecordKinds,
    provider_pubkey: &str,
    latest: &Option<(u64, String)>,
    session_id: &str,
    state: &str,
    now: u64,
    purpose: &str,
    overflow: &str,
) -> (plan: Result<StatusPlan, String>)
    ensures
        match plan {
            Ok(plan) => {
                &&& status_refusal(
                    records@,
                    kinds,
                    provider_pubkey@,
                    latest_view(*latest),
                    state@,
                    overflow@,
                ) is None
                &&& plans_next(
                    plan,
                    records@,
                    kinds,
                    provider_pubkey@,
                    latest_view(*latest),
                    session_id@,
                    state@,
                    now,
                    purpose@,
                )
            },
            Err(message) => status_refusal(
                records@,
                kinds,
                provider_pubkey@,
                latest_view(*latest),
                state@,
                overflow@,
            ) == Some(message@),
        },
{
    let (sequence, previous): (u64, Option<String>) = match step_sequence(latest) {
        Some(next) => next,
        None => {
            return Err(overflow.to_owned());
        },
    };
    let created_at: u64 = next_created_at_records(records, now);
    let mut distinct: String = join3(purpose, state, ":");
    distinct.append(session_id);
    let base: &'static str = match base_state(state) {
        Ok(base) => base,
        Err(message) => {
            return Err(message);
        },
    };
    let prerequisite: Option<String> = match requester_status_provider_prerequisite_event(
        records,
        kinds,
        provider_pubkey,
        state,
    ) {
        Ok(Some(event)) => Some(event.id.clone()),
        Ok(None) => None,
        Err(message) => {
            return Err(message);
        },
    };
    Ok(
        StatusPlan {
            sequence,
            previous,
            base_state: base,
            swp_state: state.to_owned(),
            created_at,
            distinct,
            prerequisite,
        },
    )
}

/// What saying a state takes: nothing where it was said already, else the next status.
pub fn plan_requester_status(
    records: &Vec<Event>,
    kinds: RecordKinds,
    requester_pubkey: &str,
    provider_pubkey: &str,
    latest: &Option<(u64, String)>,
    session_id: &str,
    state: &str,
    extra: &JsonObject,
    now: u64,
) -> (step: Result<StatusStep, String>)
    ensures
        match step {
            Ok(StatusStep::Existing(i)) => {
                &&& i < records@.len()
                &&& says_already(
                    records@[i as int],
                    kinds.status,
                    requester_pubkey@,
                    state@,
                    extra@,
                )
                &&& forall|j: int|
                    0 <= j < i ==> !says_already(
                        #[trigger] records@[j],
                        kinds.status,
                        requester_pubkey@,
                        state@,
                        extra@,
                    )
            },
            Ok(StatusStep::Publish(plan)) => {
                &&& forall|j: int|
                    0 <= j < records@.len() ==> !says_already(
                        #[trigger] records@[j],
                        kinds.status,
                        requester_pubkey@,
                        state@,
                        extra@,
                    )
                &&& status_refusal(
                    records@,
                    kinds,
                    provider_pubkey@,
                    latest_view(*latest),
                    state@,
                    "requester Status sequence overflowed"@,
                ) is None
                &&& plans_next(
                    plan,
                    records@,
                    kinds,
                    provider_pubkey@,
                    latest_view(*latest),
                    session_id@,
                    state@,
                    now,
                    "requester-status:"@,
                )
            },
            Err(message) => {
                &&& forall|j: int|
                    0 <= j < records@.len() ==> !says_already(
                        #[trigger] records@[j],
                        kinds.status,
                        requester_pubkey@,
                        state@,
                        extra@,
                    )
                &&& status_refusal(
                    records@,
                    kinds,
                    provider_pubkey@,
                    latest_view(*latest),
                    state@,
                    "requester Status sequence overflowed"@,
                ) == Some(message@)
            },
        },
{
    if let Some(i) = find_said(records, kinds.status, requester_pubkey, state, extra) {
        return Ok(StatusStep::Existing(i));
    }
    match plan_next_status(
        records,
        kinds,
        provider_pubkey,
        latest,
        session_id,
        state,
        now,
        "requester-status:",
        "requester Status sequence overflowed",
    ) {
        Ok(plan) => Ok(StatusStep::Publish(plan)),
        Err(message) => Err(message),
    }
}

/// The next status of a requester that recovers without a relay. It is signed again each time.
pub fn plan_doomsday_status(
    records: &Vec<Event>,
    kinds: RecordKinds,
    provider_pubkey: &str,
    latest: &Option<(u64, String)>,
    session_id: &str,
    state: &str,
    now: u64,
) -> (plan: Result<StatusPlan, String>)
    ensures
        match plan {
            Ok(plan) => {
                &&& status_refusal(
                    records@,
                    kinds,
                    provider_pubkey@,
                    latest_view(*latest),
                    state@,
                    "doomsday requester Status sequence overflowed"@,
                ) is None
                &&& plans_next(
                    plan,
                    records@,
                    kinds,
                    provider_pubkey@,
                    latest_view(*latest),
                    session_id@,
                    state@,
                    now,
                    "doomsday-requester-status:"@,
                )
            },
            Err(message) => status_refusal(
                records@,
                kinds,
                provider_pubkey@,
                latest_view(*latest),
                state@,
                "doomsday requester Status sequence overflowed"@,
            ) == Some(message@),
        },
{
    plan_next_status(
        records,
        kinds,
        provider_pubkey,
        latest,
        session_id,
        state,
        now,
        "doomsday-requester-status:",
        "doomsday requester Status sequence overflowed",
    )
}

/// The next status of a requester that signs a settlement together with the provider.
pub fn plan_cooperative_status(
    records: &Vec<Event>,
    latest: &Option<(u64, String)>,
    session_id: &str,
    action: CooperativeAction,
    now: u64,
) -> (plan: Result<StatusPlan, String>)
    ensures
        match plan {
            Ok(plan) => {
                &&& next_sequence(latest_view(*latest)) == Some(plan.sequence)
                &&& maybe(plan.previous) == previous_id(latest_view(*latest))
                &&& plan.base_state@ == "executing"@
                &&& plan.swp_state@ == "cooperative_signing_pending"@
                &&& plan.created_at == next_time(records@, now)
                &&& plan.distinct@ == "requester-cooperative:"@ + action.label() + ":"@ + session_id@
                &&& plan.prerequisite is None
            },
            Err(message) => {
                &&& next_sequence(latest_view(*latest)) is None
                &&& message@ == "requester Status sequence overflowed"@
            },
        },
{
    let (sequence, previous): (u64, Option<String>) = match step_sequence(latest) {
        Some(next) => next,
        None => {
            return Err("requester Status sequence overflowed".to_owned());
        },
    };
    let mut distinct: String = join3("requester-cooperative:", action.name(), ":");
    distinct.append(session_id);
    Ok(
        StatusPlan {
            sequence,
            previous,
            base_state: "executing",
            swp_state: "cooperative_signing_pending".to_owned(),
            created_at: next_created_at_records(records, now),
            distinct,
            prerequisite: None,
        },
    )
}

/// Two statuses signed one after the other have neighbouring sequence numbers, and the second names
/// the first.
pub proof fn law_status_stream_is_linked(
    first: StatusPlan,
    first_id: Seq<char>,
    second: StatusPlan,
    records: Seq<Event>,
    kinds: RecordKinds,
    provider: Seq<char>,
    session_id: Seq<char>,
    state: Seq<char>,
    now: u64,
    purpose: Seq<char>,
)
    requires
        plans_next(
            second,
            records,
            kinds,
            provider,
            Some((first.sequence, first_id)),
            session_id,
            state,
            now,
            purpose,
        ),
    ensures
        second.sequence == first.sequence + 1,
        maybe(second.previous) == Some(first_id),
{
}

/// Whether a record is the provider's word that they are in a state.
pub open spec fn is_provider_word(
    event: Event,
    kinds: RecordKinds,
    provider: Seq<char>,
    state: Seq<char>,
) -> bool {
    &&& is_status_by(event, kinds.status, provider)
    &&& state_of(event.content@) == Some(state)
}

/// Whether a record is the provider's word that they are in a state.
pub fn is_provider_state(
    event: &Event,
    kinds: RecordKinds,
    provider_pubkey: &str,
    expected: &str,
) -> (is: bool)
    ensures
        is == is_provider_word(*event, kinds, provider_pubkey@, expected@),
{
    event.kind == kinds.status && same_text(event.pubkey.as_str(), provider_pubkey)
        && record_is_in_state(event, expected)
}

/// The first of the records that says that the provider is in a state.
pub fn find_provider_state(
    records: &Vec<Event>,
    kinds: RecordKinds,
    provider_pubkey: &str,
    expected: &str,
) -> (found: Option<usize>)
    ensures
        match found {
            Some(i) => {
                &&& i < records@.len()
                &&& is_provider_word(records@[i as int], kinds, provider_pubkey@, expected@)
                &&& forall|j: int|
                    0 <= j < i ==> !is_provider_word(
                        #[trigger] records@[j],
                        kinds,
                        provider_pubkey@,
                        expected@,
                    )
            },
            None => forall|j: int|
                0 <= j < records@.len() ==> !is_provider_word(
                    #[trigger] records@[j],
                    kinds,
                    provider_pubkey@,
                    expected@,
                ),
        },
{
    let mut i: usize = 0;
    while i < records.len()
        invariant
            i <= records@.len(),
            forall|j: int|
                0 <= j < i ==> !is_provider_word(
                    #[trigger] records@[j],
                    kinds,
                    provider_pubkey@,
                    expected@,
                ),
        decreases records@.len() - i,
    {
        if is_provider_state(&records[i], kinds, provider_pubkey, expected) {
            return Some(i);
        }
        i = i + 1;
    }
    None
}

/// The first record in which the provider says that they are in a state.
pub open spec fn first_provider_word(
    records: Seq<Event>,
    kinds: RecordKinds,
    provider: Seq<char>,
    state: Seq<char>,
) -> Option<Event>
    decreases records.len(),
{
    if records.len() == 0 {
        None
    } else if is_provider_word(records[0], kinds, provider, state) {
        Some(records[0])
    } else {
        first_provider_word(records.drop_first(), kinds, provider, state)
    }
}

/// The first such record is the one before which there is none.
pub proof fn lemma_first_provider_word(
    records: Seq<Event>,
    kinds: RecordKinds,
    provider: Seq<char>,
    state: Seq<char>,
    place: int,
)
    requires
        0 <= place <= records.len(),
        forall|j: int|
            0 <= j < place ==> !is_provider_word(#[trigger] records[j], kinds, provider, state),
        place < records.len() ==> is_provider_word(records[place], kinds, provider, state),
    ensures
        first_provider_word(records, kinds, provider, state) == (if place < records.len() {
            Some(records[place])
        } else {
            None
        }),
    decreases place,
{
    if place > 0 {
        assert(!is_provider_word(records[0], kinds, provider, state));
        let rest = records.drop_first();
        assert forall|j: int| 0 <= j < place - 1 implies !is_provider_word(
            #[trigger] rest[j],
            kinds,
            provider,
            state,
        ) by {
            assert(!is_provider_word(records[j + 1], kinds, provider, state));
        }
        lemma_first_provider_word(rest, kinds, provider, state, place - 1);
    }
}

/// Whether the provider has said that they are in a state.
pub fn provider_said(records: &Vec<Event>, kinds: RecordKinds, provider_pubkey: &str, state: &str) -> (
    said: bool)
    ensures
        said == exists|i: int|
            0 <= i < records@.len() && is_provider_word(
                #[trigger] records@[i],
                kinds,
                provider_pubkey@,
                state@,
            ),
{
    match find_provider_state(records, kinds, provider_pubkey, state) {
        Some(_) => true,
        None => false,
    }
}

/// Whether a record is the provider's close of the session with an outcome.
pub open spec fn is_provider_end(
    event: Event,
    kinds: RecordKinds,
    provider: Seq<char>,
    outcome: Seq<char>,
) -> bool {
    &&& event.kind == kinds.close
    &&& event.pubkey@ == provider
    &&& tag_values(event.tags@, "outcome"@) == seq![outcome]
}

/// Whether a record is the provider's close of the session with an outcome.
pub fn is_provider_close(
    event: &Event,
    kinds: RecordKinds,
    provider_pubkey: &str,
    outcome: &str,
) -> (is: bool)
    ensures
        is == is_provider_end(*event, kinds, provider_pubkey@, outcome@),
{
    event.kind == kinds.close && same_text(event.pubkey.as_str(), provider_pubkey) && has_only_tag(
        event,
        "outcome",
        outcome,
    )
}

/// The first of the records that closes the session with an outcome.
pub fn find_provider_close(
    records: &Vec<Event>,
    kinds: RecordKinds,
    provider_pubkey: &str,
    outcome: &str,
) -> (found: Option<usize>)
    ensures
        match found {
            Some(i) => {
                &&& i < records@.len()
                &&& is_provider_end(records@[i as int], kinds, provider_pubkey@, outcome@)
                &&& forall|j: int|
                    0 <= j < i ==> !is_provider_end(
                        #[trigger] records@[j],
                        kinds,
                        provider_pubkey@,
                        outcome@,
                    )
            },
            None => forall|j: int|
                0 <= j < records@.len() ==> !is_provider_end(
                    #[trigger] records@[j],
                    kinds,
                    provider_pubkey@,
                    outcome@,
                ),
        },
{
    let mut i: usize = 0;
    while i < records.len()
        invariant
            i <= records@.len(),
            forall|j: int|
                0 <= j < i ==> !is_provider_end(
                    #[trigger] records@[j],
                    kinds,
                    provider_pubkey@,
                    outcome@,
                ),
        decreases records@.len() - i,
    {
        if is_provider_close(&records[i], kinds, provider_pubkey, outcome) {
            return Some(i);
        }
        i = i + 1;
    }
    None
}

/// Whether a record is a cancellation by the provider that has come to an action.
pub fn is_provider_cancel(
    event: &Event,
    kinds: RecordKinds,
    provider_pubkey: &str,
    action: &str,
) -> (is: bool)
    ensures
        is == (event.kind == kinds.cancel && event.pubkey@ == provider_pubkey@ && tag_values(
            event.tags@,
            "action"@,
        ) == seq![action@]),
{
    event.kind == kinds.cancel && same_text(event.pubkey.as_str(), provider_pubkey)
        && has_only_tag(event, "action", action)
}

/// The details of a checkpoint together with where the session is kept.
pub open spec fn kept_details(
    details: JsonView,
    session_id: Seq<char>,
    order_id: Seq<char>,
    snapshot: Seq<char>,
    deliveries: Seq<char>,
) -> Result<JsonView, Seq<char>> {
    match members_of(Some(details)) {
        None => Err("funded checkpoint details must be an object"@),
        Some(members) => Ok(
            JsonView::Object(
                members.insert("session_id"@, text_doc(session_id)).insert(
                    "order_id"@,
                    text_doc(order_id),
                ).insert("snapshot"@, text_doc(snapshot)).insert(
                    "deliveries"@,
                    text_doc(deliveries),
                ),
            ),
        ),
    }
}

/// The details of a checkpoint together with where the session is kept: it can be had exactly where
/// every part that it rests on can, and each part of it is the one that its name says.
pub proof fn law_kept_details_is_read_from_its_parts(
    details: JsonView,
    session_id: Seq<char>,
    order_id: Seq<char>,
    snapshot: Seq<char>,
    deliveries: Seq<char>,
)
    ensures
        ({
            let read = kept_details(details, session_id, order_id, snapshot, deliveries);
            let given = read->Ok_0;
            &&& read is Ok <==> {
                &&& members_of(Some(details)) is Some
            }
            &&& read is Ok ==> {
                &&& given == JsonView::Object(
                    members_of(Some(details))->0
                        .insert("session_id"@, text_doc(session_id))
                        .insert("order_id"@, text_doc(order_id))
                        .insert("snapshot"@, text_doc(snapshot))
                        .insert("deliveries"@, text_doc(deliveries)),
                )
            }
        }),
{
}

/// The details of a checkpoint together with where the session is kept.
pub fn checkpoint_details(
    details: &Json,
    session_id: &str,
    order_id: &str,
    snapshot: &str,
    deliveries: &str,
) -> (kept: Result<Json, String>)
    ensures
        told_json(kept) == kept_details(
            details@,
            session_id@,
            order_id@,
            snapshot@,
            deliveries@,
        ),
{
    match details.as_object() {
        None => Err("funded checkpoint details must be an object".to_owned()),
        Some(members) => Ok(
            Json::object(
                members.copy().with_text("session_id", session_id).with_text(
                    "order_id",
                    order_id,
                ).with_text("snapshot", snapshot).with_text("deliveries", deliveries),
            ),
        ),
    }
}

/// A verification builds on the terms that it is of, a claim on funding that is final, a broadcast on the
/// provider's request for it, and a refund of the source on the provider's refund of the
/// destination.
pub proof fn law_requester_words_build_on_provider_words()
    ensures
        prerequisite_of("requester_verification_passed"@) == Some("lock_terms_ready"@),
        prerequisite_of("requester_invoice_verified"@) == Some("hold_invoice_ready"@),
        prerequisite_of("requester_lock_verified"@) == Some("provider_lock_terms_ready"@),
        prerequisite_of("requester_claim_pending"@) == Some("funding_final"@),
        prerequisite_of("requester_source_verified"@) == Some("source_lock_terms_ready"@),
        prerequisite_of("requester_destination_verified"@) == Some("destination_lock_terms_ready"@),
        prerequisite_of("requester_source_broadcast"@) == Some("source_funding_required"@),
        prerequisite_of("requester_destination_claim_pending"@) == Some("destination_funding_final"@),
        prerequisite_of("requester_source_refund_pending"@) == Some("provider_destination_refunded"@),
{
    reveal_strlit("requester_verification_passed");
    reveal_strlit("requester_invoice_verified");
    reveal_strlit("requester_lock_verified");
    reveal_strlit("requester_claim_pending");
    reveal_strlit("requester_source_verified");
    reveal_strlit("requester_destination_verified");
    reveal_strlit("requester_source_broadcast");
    reveal_strlit("requester_destination_claim_pending");
    reveal_strlit("requester_source_refund_pending");
    assert("requester_verification_passed"@.len() == 29);
    assert("requester_invoice_verified"@.len() == 26);
    assert("requester_lock_verified"@.len() == 23);
    assert("requester_claim_pending"@.len() == 23);
    assert("requester_source_verified"@.len() == 25);
    assert("requester_destination_verified"@.len() == 30);
    assert("requester_source_broadcast"@.len() == 26);
    assert("requester_destination_claim_pending"@.len() == 35);
    assert("requester_source_refund_pending"@.len() == 31);
    assert("requester_invoice_verified"@[10] == 'i');
    assert("requester_source_broadcast"@[10] == 's');
    assert("requester_lock_verified"@[10] == 'l');
    assert("requester_claim_pending"@[10] == 'c');
}

/// A status is not refused exactly where a number is left for it, its state is one that this side says,
/// and the provider has said what it builds on exactly once; and the number is the one after the
/// latest.
pub proof fn law_status_is_said_in_its_turn(
    records: Seq<Event>,
    kinds: RecordKinds,
    provider: Seq<char>,
    latest: Option<(u64, Seq<char>)>,
    state: Seq<char>,
    overflow: Seq<char>,
)
    ensures
        status_refusal(records, kinds, provider, latest, state, overflow) is None <==> {
            &&& latest is Some ==> latest->Some_0.0 < u64::MAX
            &&& base_of(state) is Some
            &&& prerequisite_of(state) is Some ==> records.filter(
                in_state(kinds.status, provider, prerequisite_of(state)->0),
            ).len() == 1
        },
        latest is None ==> next_sequence(latest) == Some(0u64),
        latest is Some && latest->Some_0.0 < u64::MAX ==> {
            &&& next_sequence(latest) is Some
            &&& next_sequence(latest)->0 == latest->Some_0.0 + 1
        },
        latest is Some ==> previous_id(latest) == Some(latest->Some_0.1),
        latest is None ==> previous_id(latest) is None,
{
}

} // verus!
