//! Swaps between two providers: how their quotes are compared, and one provider's capacity that is
//! reserved twice.

use vstd::prelude::*;
use crate::answer::{answers, cancels};
use crate::amount::{
    DOUBLE_RESERVATION_INPUT_AMOUNT_SAT, DOUBLE_RESERVATION_OUTPUT_AMOUNT_SAT, OUTPUT_AMOUNT_SAT,
    amount_reading, canonical_u64,
};
use crate::contract::{amount_member, required_amount, required_reading, required_string};
use crate::control::counted;
use crate::json::{
    Json, JsonObject, JsonView, bool_of, items_of, items_view, lemma_items_view, member, member_text,
    members_of, name_views, no_members, number_doc, step, text_doc, text_of, texts_doc, u64_of,
};
use crate::lifecycle::{find_kind, first_of_kind};
use crate::machine::{
    Action, ActionView, INVOICE_EXPIRY_SECONDS, Reply, ReplyView, Task, lemma_milestone,
    lemma_ranks_rise, perform, perform_with, perform_with_four, perform_with_three, wrong_reply,
    wrong_reply_text,
};
use crate::record::{
    Event, RecordKinds, has_only_tag, profile_reading, record_profile, tag_values,
};
use crate::text::{decimal, decimal_text, join, same_text, told};

verus! {

/// A quote of one of two providers.
pub struct TopologyCandidate {
    pub relay_url: String,
    pub provider_pubkey: String,
    pub session_id: String,
    pub rfq_id: String,
    pub quote_id: String,
    pub reservation_class: String,
    pub swap_type: String,
    pub input_asset_id: String,
    pub output_asset_id: String,
    pub amount_equation: String,
    pub rounding: String,
    pub input_amount: String,
    /// The amount that the provider pays out, as they wrote it.
    pub output_text: String,
    /// The most that the provider takes for it, as they wrote it.
    pub fee_text: String,
    pub output_amount: u64,
    pub maximum_total_fee: u64,
    pub effective_acceptance_deadline: u64,
}

/// What is known of a quote besides its terms.
pub struct QuoteStanding {
    pub quote_verified: bool,
    pub funding_authorized: bool,
    pub quote_class: String,
    pub reservation_class: String,
    pub effective_acceptance_deadline: u64,
}

/// What the amounts of a quote read as that may be selected now.
pub open spec fn candidate_reading(
    standing: QuoteStanding,
    output_amount: Seq<char>,
    maximum_total_fee: Seq<char>,
    now: u64,
) -> Result<(u64, u64), Seq<char>> {
    if !standing.quote_verified || standing.funding_authorized || standing.quote_class@ != "firm"@
        || standing.reservation_class@ != "hard"@ || now > standing.effective_acceptance_deadline {
        Err("funded topology candidate is not a fresh verified hard Quote"@)
    } else {
        match amount_reading(output_amount) {
            Err(message) => Err(message),
            Ok(output) => match amount_reading(maximum_total_fee) {
                Err(message) => Err(message),
                Ok(fee) => Ok((output, fee)),
            },
        }
    }
}

/// What the amounts of a quote read as that may be selected now: it can be had exactly where every
/// part that it rests on can, and each part of it is the one that its name says.
pub proof fn law_candidate_is_read_from_its_parts(
    standing: QuoteStanding,
    output_amount: Seq<char>,
    maximum_total_fee: Seq<char>,
    now: u64,
)
    ensures
        ({
            let read = candidate_reading(standing, output_amount, maximum_total_fee, now);
            let given = read->Ok_0;
            &&& read is Ok <==> {
                &&& standing.quote_verified
                &&& !(standing.funding_authorized)
                &&& standing.quote_class@ == "firm"@
                &&& standing.reservation_class@ == "hard"@
                &&& now <= standing.effective_acceptance_deadline
                &&& amount_reading(output_amount) is Ok
                &&& amount_reading(maximum_total_fee) is Ok
            }
            &&& read is Ok ==> {
                &&& given.0 == amount_reading(output_amount)->Ok_0
                &&& given.1 == amount_reading(maximum_total_fee)->Ok_0
            }
        }),
{
}

/// The amounts of a quote that may be selected now: what is paid out, and the most that is taken.
pub fn funded_topology_candidate(
    standing: &QuoteStanding,
    output_amount: &str,
    maximum_total_fee: &str,
    now: u64,
) -> (amounts: Result<(u64, u64), String>)
    ensures
        told(amounts) == candidate_reading(*standing, output_amount@, maximum_total_fee@, now),
{
    if !standing.quote_verified || standing.funding_authorized || !same_text(
        standing.quote_class.as_str(),
        "firm",
    ) || !same_text(standing.reservation_class.as_str(), "hard") || now
        > standing.effective_acceptance_deadline {
        return Err("funded topology candidate is not a fresh verified hard Quote".to_owned());
    }
    let output: u64 = canonical_u64(output_amount)?;
    let fee: u64 = canonical_u64(maximum_total_fee)?;
    Ok((output, fee))
}

/// Whether two quotes are for the same swap, so that their terms can be compared.
pub open spec fn are_comparable(left: TopologyCandidate, right: TopologyCandidate) -> bool {
    &&& left.swap_type@ == right.swap_type@
    &&& left.input_asset_id@ == right.input_asset_id@
    &&& left.output_asset_id@ == right.output_asset_id@
    &&& left.input_amount@ == right.input_amount@
    &&& left.amount_equation@ == right.amount_equation@
    &&& left.rounding@ == right.rounding@
}

/// Whether a text comes before another in the order of their characters.
pub open spec fn text_before(left: Seq<char>, right: Seq<char>) -> bool
    decreases left.len(),
{
    if right.len() == 0 {
        false
    } else if left.len() == 0 {
        true
    } else if left[0] != right[0] {
        (left[0] as u32) < (right[0] as u32)
    } else {
        text_before(left.drop_first(), right.drop_first())
    }
}

/// Whether a quote is preferred to another: more is paid out, else less is taken for it, else its
/// provider's key comes first, else the quote's identifier does.
pub open spec fn is_preferred(left: TopologyCandidate, right: TopologyCandidate) -> bool {
    if left.output_amount != right.output_amount {
        left.output_amount > right.output_amount
    } else if left.maximum_total_fee != right.maximum_total_fee {
        left.maximum_total_fee < right.maximum_total_fee
    } else if left.provider_pubkey@ != right.provider_pubkey@ {
        text_before(left.provider_pubkey@, right.provider_pubkey@)
    } else {
        text_before(left.quote_id@, right.quote_id@)
    }
}

/// Whether the first of two quotes is ranked before the second: unless the second is preferred.
pub open spec fn comes_first(first: TopologyCandidate, second: TopologyCandidate) -> bool {
    !is_preferred(second, first)
}

proof fn lemma_text_before_step(left: Seq<char>, right: Seq<char>, place: int)
    requires
        0 <= place <= left.len(),
        place <= right.len(),
        forall|j: int| 0 <= j < place ==> left[j] == right[j],
    ensures
        text_before(left, right) == text_before(
            left.subrange(place, left.len() as int),
            right.subrange(place, right.len() as int),
        ),
    decreases place,
{
    if place == 0 {
        assert(left.subrange(0, left.len() as int) =~= left);
        assert(right.subrange(0, right.len() as int) =~= right);
    } else {
        lemma_text_before_step(left, right, place - 1);
        let a = left.subrange(place - 1, left.len() as int);
        let b = right.subrange(place - 1, right.len() as int);
        assert(a[0] == b[0]);
        assert(a.drop_first() =~= left.subrange(place, left.len() as int));
        assert(b.drop_first() =~= right.subrange(place, right.len() as int));
    }
}

fn comes_before(left: &str, right: &str) -> (before: bool)
    ensures
        before == text_before(left@, right@),
{
    let left_length: usize = left.unicode_len();
    let right_length: usize = right.unicode_len();
    let mut i: usize = 0;
    while i < left_length && i < right_length
        invariant
            left_length == left@.len(),
            right_length == right@.len(),
            i <= left_length,
            i <= right_length,
            forall|j: int| 0 <= j < i ==> left@[j] == right@[j],
        decreases left_length - i,
    {
        let a: char = left.get_char(i);
        let b: char = right.get_char(i);
        if a != b {
            proof {
                lemma_text_before_step(left@, right@, i as int);
                assert(left@.subrange(i as int, left@.len() as int)[0] == a);
                assert(right@.subrange(i as int, right@.len() as int)[0] == b);
            }
            return (a as u32) < (b as u32);
        }
        i = i + 1;
    }
    proof {
        lemma_text_before_step(left@, right@, i as int);
    }
    i < right_length
}

impl TopologyCandidate {
    /// Whether two quotes are for the same swap, so that their terms can be compared.
    pub fn is_comparable(&self, other: &TopologyCandidate) -> (comparable: bool)
        ensures
            comparable == are_comparable(*self, *other),
    {
        same_text(self.swap_type.as_str(), other.swap_type.as_str()) && same_text(
            self.input_asset_id.as_str(),
            other.input_asset_id.as_str(),
        ) && same_text(self.output_asset_id.as_str(), other.output_asset_id.as_str()) && same_text(
            self.input_amount.as_str(),
            other.input_amount.as_str(),
        ) && same_text(self.amount_equation.as_str(), other.amount_equation.as_str()) && same_text(
            self.rounding.as_str(),
            other.rounding.as_str(),
        )
    }

    /// Whether this quote is preferred to another.
    pub fn is_preferred_to(&self, other: &TopologyCandidate) -> (preferred: bool)
        ensures
            preferred == is_preferred(*self, *other),
    {
        if self.output_amount != other.output_amount {
            self.output_amount > other.output_amount
        } else if self.maximum_total_fee != other.maximum_total_fee {
            self.maximum_total_fee < other.maximum_total_fee
        } else if !same_text(self.provider_pubkey.as_str(), other.provider_pubkey.as_str()) {
            comes_before(self.provider_pubkey.as_str(), other.provider_pubkey.as_str())
        } else {
            comes_before(self.quote_id.as_str(), other.quote_id.as_str())
        }
    }

    /// Whether this quote is ranked before one that was given after it.
    pub fn precedes(&self, later: &TopologyCandidate) -> (precedes: bool)
        ensures
            precedes == comes_first(*self, *later),
    {
        !later.is_preferred_to(self)
    }

    /// How the quote is listed under a rank.
    pub fn ranked(&self, rank: u64) -> (document: Json)
        ensures
            document@ == ranked_doc(*self, rank),
    {
        Json::object(
            JsonObject::new().with("rank", Json::number(rank)).with(
                "relay_url",
                Json::text(self.relay_url.as_str()),
            ).with("provider_pubkey", Json::text(self.provider_pubkey.as_str())).with(
                "session_id",
                Json::text(self.session_id.as_str()),
            ).with("rfq_id", Json::text(self.rfq_id.as_str())).with(
                "quote_id",
                Json::text(self.quote_id.as_str()),
            ).with("reservation_class", Json::text(self.reservation_class.as_str())).with(
                "input_amount",
                Json::text(self.input_amount.as_str()),
            ).with("output_amount", Json::text(self.output_text.as_str())).with(
                "maximum_total_fee",
                Json::text(self.fee_text.as_str()),
            ).with(
                "effective_acceptance_deadline",
                Json::number(self.effective_acceptance_deadline),
            ),
        )
    }
}

/// How a quote is listed under a rank.
pub open spec fn ranked_doc(candidate: TopologyCandidate, rank: u64) -> JsonView {
    JsonView::Object(
        no_members().insert("rank"@, number_doc(rank)).insert(
            "relay_url"@,
            text_doc(candidate.relay_url@),
        ).insert("provider_pubkey"@, text_doc(candidate.provider_pubkey@)).insert(
            "session_id"@,
            text_doc(candidate.session_id@),
        ).insert("rfq_id"@, text_doc(candidate.rfq_id@)).insert(
            "quote_id"@,
            text_doc(candidate.quote_id@),
        ).insert("reservation_class"@, text_doc(candidate.reservation_class@)).insert(
            "input_amount"@,
            text_doc(candidate.input_amount@),
        ).insert("output_amount"@, text_doc(candidate.output_text@)).insert(
            "maximum_total_fee"@,
            text_doc(candidate.fee_text@),
        ).insert(
            "effective_acceptance_deadline"@,
            number_doc(candidate.effective_acceptance_deadline),
        ),
    )
}

/// How a quote is listed under a rank: what stands under each of its names.
pub proof fn law_ranked_says_each_part_by_its_name(candidate: TopologyCandidate, rank: u64)
    ensures
        ({
            let document = ranked_doc(candidate, rank);
            &&& member(document, "rank"@) == Some(number_doc(rank))
            &&& member_text(document, "relay_url"@) == Some(candidate.relay_url@)
            &&& member_text(document, "provider_pubkey"@) == Some(candidate.provider_pubkey@)
            &&& member_text(document, "session_id"@) == Some(candidate.session_id@)
            &&& member_text(document, "rfq_id"@) == Some(candidate.rfq_id@)
            &&& member_text(document, "quote_id"@) == Some(candidate.quote_id@)
            &&& member_text(document, "reservation_class"@) == Some(candidate.reservation_class@)
            &&& member_text(document, "input_amount"@) == Some(candidate.input_amount@)
            &&& member_text(document, "output_amount"@) == Some(candidate.output_text@)
            &&& member_text(document, "maximum_total_fee"@) == Some(candidate.fee_text@)
            &&& member(document, "effective_acceptance_deadline"@) == Some(
                number_doc(candidate.effective_acceptance_deadline),
            )
        }),
{
    reveal_strlit("rank");
    reveal_strlit("relay_url");
    reveal_strlit("provider_pubkey");
    reveal_strlit("session_id");
    reveal_strlit("rfq_id");
    reveal_strlit("quote_id");
    reveal_strlit("reservation_class");
    reveal_strlit("input_amount");
    reveal_strlit("output_amount");
    reveal_strlit("maximum_total_fee");
    reveal_strlit("effective_acceptance_deadline");
    assert("rank"@.len() == 4);
    assert("relay_url"@.len() == 9);
    assert("provider_pubkey"@.len() == 15);
    assert("session_id"@.len() == 10);
    assert("rfq_id"@.len() == 6);
    assert("quote_id"@.len() == 8);
    assert("reservation_class"@.len() == 17);
    assert("input_amount"@.len() == 12);
    assert("output_amount"@.len() == 13);
    assert("maximum_total_fee"@.len() == 17);
    assert("effective_acceptance_deadline"@.len() == 29);
    assert("reservation_class"@[0] == 'r');
    assert("maximum_total_fee"@[0] == 'm');
}

proof fn lemma_text_order(first: Seq<char>, second: Seq<char>, third: Seq<char>)
    ensures
        !text_before(first, first),
        text_before(first, second) ==> !text_before(second, first),
        first == second || text_before(first, second) || text_before(second, first),
        text_before(first, second) && text_before(second, third) ==> text_before(first, third),
    decreases first.len() + second.len() + third.len(),
{
    if first.len() > 0 && second.len() > 0 {
        if third.len() > 0 {
            lemma_text_order(first.drop_first(), second.drop_first(), third.drop_first());
        } else {
            lemma_text_order(first.drop_first(), second.drop_first(), third);
        }
        let (a, b) = (first[0], second[0]);
        if a as u32 == b as u32 {
            vstd::utf8::char_u32_cast(a, a as u32);
            vstd::utf8::char_u32_cast(b, b as u32);
        }
        if first[0] == second[0] && first.drop_first() == second.drop_first() {
            assert forall|i: int| 0 <= i < first.len() implies first[i] == second[i] by {
                if i > 0 {
                    assert(first.drop_first()[i - 1] == second.drop_first()[i - 1]);
                }
            }
            assert(first.drop_first().len() == second.drop_first().len());
            assert(first =~= second);
        }
    } else if first.len() > 0 {
        lemma_text_order(first.drop_first(), second, third);
    } else if second.len() == 0 {
        assert(first =~= second);
    }
}

/// The preference is a strict order: no quote is preferred to itself, no two to each other, and it
/// carries over from quote to quote.
pub proof fn law_preference_is_an_order(
    first: TopologyCandidate,
    second: TopologyCandidate,
    third: TopologyCandidate,
)
    ensures
        !is_preferred(first, first),
        is_preferred(first, second) ==> !is_preferred(second, first),
        is_preferred(first, second) && is_preferred(second, third) ==> is_preferred(first, third),
{
    lemma_text_order(first.provider_pubkey@, second.provider_pubkey@, third.provider_pubkey@);
    lemma_text_order(first.quote_id@, second.quote_id@, third.quote_id@);
    lemma_text_order(second.provider_pubkey@, first.provider_pubkey@, third.provider_pubkey@);
    lemma_text_order(second.quote_id@, first.quote_id@, third.quote_id@);
}

/// Of two quotes that differ in anything that they are compared by one is preferred.
pub proof fn law_preference_decides(first: TopologyCandidate, second: TopologyCandidate)
    requires
        first.output_amount != second.output_amount || first.maximum_total_fee
            != second.maximum_total_fee || first.provider_pubkey@ != second.provider_pubkey@
            || first.quote_id@ != second.quote_id@,
    ensures
        is_preferred(first, second) || is_preferred(second, first),
{
    lemma_text_order(first.provider_pubkey@, second.provider_pubkey@, first.provider_pubkey@);
    lemma_text_order(first.quote_id@, second.quote_id@, first.quote_id@);
}

/// The selected quote pays out at least as much as the other, and where both pay out the same it
/// takes no more for it.
pub proof fn law_selected_quote_is_best(first: TopologyCandidate, second: TopologyCandidate)
    ensures
        ({
            let (selected, other) = if comes_first(first, second) {
                (first, second)
            } else {
                (second, first)
            };
            &&& selected.output_amount >= other.output_amount
            &&& selected.output_amount == other.output_amount ==> selected.maximum_total_fee
                <= other.maximum_total_fee
        }),
{
}

/// The order in which quotes are compared.
pub open spec fn selection_policy() -> Seq<Seq<char>> {
    seq![
        "output_amount_desc"@,
        "maximum_total_fee_asc"@,
        "provider_pubkey_asc"@,
        "quote_id_asc"@,
    ]
}

fn policy() -> (document: Json)
    ensures
        document@ == texts_doc(selection_policy()),
{
    let names: Vec<&str> = vec![
        "output_amount_desc",
        "maximum_total_fee_asc",
        "provider_pubkey_asc",
        "quote_id_asc",
    ];
    assert(name_views(names@) =~= selection_policy());
    Json::texts(&names)
}

/// Whether the description of the laboratory is the one that is carried out here.
pub open spec fn describes_topology(fixture: JsonView) -> bool {
    &&& member_text(fixture, "schema"@) == Some("openagents.immortal.lab-funded-topology.v1"@)
    &&& u64_of(step(member(fixture, "topology"@), "relay_count"@)) == Some(2u64)
    &&& u64_of(step(member(fixture, "topology"@), "provider_database_count"@)) == Some(2u64)
    &&& bool_of(step(member(fixture, "topology"@), "shared_bitcoind_namespace"@)) == Some(true)
    &&& bool_of(
        step(member(fixture, "topology"@), "issue_18_requires_separate_bitcoind_namespaces"@),
    ) == Some(true)
    &&& step(member(fixture, "selection"@), "ordering"@) == Some(texts_doc(selection_policy()))
    &&& text_of(step(member(fixture, "unselected"@), "reservation_release_cause"@)) == Some(
        "terminal_close"@,
    )
}

fn counts(found: Option<&Json>, name: &str, expected: u64) -> (is: bool)
    ensures
        is == (u64_of(step(crate::json::seen(found), name@)) == Some(expected)),
{
    match found {
        Some(document) => match document.u64_at(name) {
            Some(value) => value == expected,
            None => false,
        },
        None => false,
    }
}

fn holds(found: Option<&Json>, name: &str) -> (is: bool)
    ensures
        is == (bool_of(step(crate::json::seen(found), name@)) == Some(true)),
{
    match found {
        Some(document) => match document.bool_at(name) {
            Some(value) => value,
            None => false,
        },
        None => false,
    }
}

/// Checks that the description of the laboratory is the one that is carried out here.
pub fn validate_funded_topology_fixture(fixture: &Json) -> (checked: Result<(), String>)
    ensures
        told(checked) == (if describes_topology(fixture@) {
            Ok(())
        } else {
            Err("funded topology fixture differs from the executable contract"@)
        }),
{
    let topology: Option<&Json> = fixture.get("topology");
    let ordered: bool = match fixture.get("selection") {
        Some(selection) => match selection.get("ordering") {
            Some(ordering) => ordering.same(&policy()),
            None => false,
        },
        None => false,
    };
    let released: bool = match fixture.get("unselected") {
        Some(unselected) => unselected.says("reservation_release_cause", "terminal_close"),
        None => false,
    };
    if !fixture.says("schema", "openagents.immortal.lab-funded-topology.v1") || !counts(
        topology,
        "relay_count",
        2,
    ) || !counts(topology, "provider_database_count", 2) || !holds(
        topology,
        "shared_bitcoind_namespace",
    ) || !holds(topology, "issue_18_requires_separate_bitcoind_namespaces") || !ordered
        || !released {
        return Err("funded topology fixture differs from the executable contract".to_owned());
    }
    Ok(())
}

/// Checks that a swap between two providers is not controlled from outside.
pub fn check_uncontrolled(controls: usize) -> (checked: Result<(), String>)
    ensures
        told(checked) == (if controls == 0 {
            Ok(())
        } else {
            Err("funded topology does not accept restart or injection controls"@)
        }),
{
    if controls == 0 {
        Ok(())
    } else {
        Err("funded topology does not accept restart or injection controls".to_owned())
    }
}

/// Whether a close releases all that was reserved and spent nothing.
pub open spec fn releases(profile: Map<Seq<char>, JsonView>, output_amount: Seq<char>) -> bool {
    let accounting = member(JsonView::Object(profile), "loss_accounting"@);
    &&& counted(profile, "external_spend_effects"@) == Some(0u64)
    &&& text_of(step(accounting, "input_committed"@)) == Some("0"@)
    &&& text_of(step(accounting, "reservation_released"@)) == Some(output_amount)
}

fn profile_releases(profile: &JsonObject, output_amount: &str) -> (is: bool)
    ensures
        is == releases(profile@, output_amount@),
{
    let nothing_spent: bool = match profile.u64_at("external_spend_effects") {
        Some(effects) => effects == 0,
        None => false,
    };
    match profile.get("loss_accounting") {
        Some(accounting) => nothing_spent && accounting.says("input_committed", "0")
            && accounting.says("reservation_released", output_amount),
        None => false,
    }
}

/// The name of the journey of one of the two sessions.
pub open spec fn journey_of(first: bool) -> Seq<char> {
    if first {
        "topology_a"@
    } else {
        "topology_b"@
    }
}

fn journey_text(first: bool) -> (name: &'static str)
    ensures
        name@ == journey_of(first),
{
    if first {
        "topology_a"
    } else {
        "topology_b"
    }
}

/// The phases of the cancelling of a session, in their order.
#[derive(Clone, Copy, Debug, PartialEq, Eq, Structural)]
pub enum CancelPhase {
    PublishRequest,
    AwaitAccepted,
    AwaitEffective,
    AwaitClose,
    Finished,
}

impl CancelPhase {
    /// The place of the phase in their order.
    pub open spec fn rank(self) -> int {
        match self {
            CancelPhase::PublishRequest => 0,
            CancelPhase::AwaitAccepted => 1,
            CancelPhase::AwaitEffective => 2,
            CancelPhase::AwaitClose => 3,
            CancelPhase::Finished => 4,
        }
    }
}

/// A session that was not selected and is cancelled before anything is funded.
pub struct CancelRun {
    pub phase: CancelPhase,
    pub provider_pubkey: String,
    pub session_id: String,
    pub order_id: String,
    pub output_amount: String,
    pub request_id: String,
    pub accepted_id: String,
    pub effective_id: String,
    pub close_id: String,
}

/// A session that was not selected and is cancelled before anything is funded.
#[verifier::ext_equal]
pub struct CancelRunView {
    pub phase: CancelPhase,
    pub provider_pubkey: Seq<char>,
    pub session_id: Seq<char>,
    pub order_id: Seq<char>,
    pub output_amount: Seq<char>,
    pub request_id: Seq<char>,
    pub accepted_id: Seq<char>,
    pub effective_id: Seq<char>,
    pub close_id: Seq<char>,
}

impl View for CancelRun {
    type V = CancelRunView;

    open spec fn view(&self) -> CancelRunView {
        CancelRunView {
            phase: self.phase,
            provider_pubkey: self.provider_pubkey@,
            session_id: self.session_id@,
            order_id: self.order_id@,
            output_amount: self.output_amount@,
            request_id: self.request_id@,
            accepted_id: self.accepted_id@,
            effective_id: self.effective_id@,
            close_id: self.close_id@,
        }
    }
}

/// What the cancelling of a session asks for next.
pub open spec fn cancel_action(run: CancelRunView) -> ActionView {
    match run.phase {
        CancelPhase::PublishRequest => ActionView::Perform(
            Task::PublishCancel,
            seq![
                "topology-cancel-request:"@ + run.session_id,
                "topology_quote_not_selected"@,
                "no_funding_authorized"@,
            ],
        ),
        CancelPhase::AwaitAccepted => ActionView::Perform(Task::AwaitCancel, seq!["accepted"@]),
        CancelPhase::AwaitEffective => ActionView::Perform(Task::AwaitCancel, seq!["effective"@]),
        CancelPhase::AwaitClose => ActionView::Perform(
            Task::AwaitCancelledClose,
            seq!["cancelled"@],
        ),
        CancelPhase::Finished => ActionView::Finish,
    }
}

/// Where a reply takes the cancelling of a session.
pub open spec fn cancel_step(run: CancelRunView, reply: ReplyView) -> Result<
    CancelRunView,
    Seq<char>,
> {
    match (run.phase, reply) {
        (CancelPhase::PublishRequest, ReplyView::Record { id, pubkey, tags, content, .. }) => Ok(
            CancelRunView { phase: CancelPhase::AwaitAccepted, request_id: id, ..run },
        ),
        (CancelPhase::AwaitAccepted, ReplyView::Record { id, pubkey, tags, content, .. }) => Ok(
            CancelRunView { phase: CancelPhase::AwaitEffective, accepted_id: id, ..run },
        ),
        (CancelPhase::AwaitEffective, ReplyView::Record { id, pubkey, tags, content, .. }) => Ok(
            CancelRunView { phase: CancelPhase::AwaitClose, effective_id: id, ..run },
        ),
        (CancelPhase::AwaitClose, ReplyView::Record { id, pubkey, tags, content, .. }) => match profile_reading(
            content,
        ) {
            Err(message) => Err(message),
            Ok(profile) => {
                if !releases(profile, run.output_amount) {
                    Err("unselected provider Close has invalid no-spend release accounting"@)
                } else {
                    Ok(CancelRunView { phase: CancelPhase::Finished, close_id: id, ..run })
                }
            },
        },
        _ => Err(wrong_reply()),
    }
}

impl CancelRun {
    /// The cancelling of a session before its first action.
    pub fn new(
        provider_pubkey: &str,
        session_id: &str,
        order_id: &str,
        output_amount: &str,
    ) -> (run: CancelRun)
        ensures
            run@.phase == CancelPhase::PublishRequest,
            run@.provider_pubkey == provider_pubkey@,
            run@.session_id == session_id@,
            run@.order_id == order_id@,
            run@.output_amount == output_amount@,
            run@.request_id == Seq::<char>::empty(),
            run@.accepted_id == Seq::<char>::empty(),
            run@.effective_id == Seq::<char>::empty(),
            run@.close_id == Seq::<char>::empty(),
    {
        CancelRun {
            phase: CancelPhase::PublishRequest,
            provider_pubkey: provider_pubkey.to_owned(),
            session_id: session_id.to_owned(),
            order_id: order_id.to_owned(),
            output_amount: output_amount.to_owned(),
            request_id: String::new(),
            accepted_id: String::new(),
            effective_id: String::new(),
            close_id: String::new(),
        }
    }

    /// What the journey asks for next.
    pub fn action(&self) -> (action: Action)
        ensures
            action@ == cancel_action(self@),
    {
        match self.phase {
            CancelPhase::PublishRequest => perform_with_three(
                Task::PublishCancel,
                join("topology-cancel-request:", self.session_id.as_str()).as_str(),
                "topology_quote_not_selected",
                "no_funding_authorized",
            ),
            CancelPhase::AwaitAccepted => perform_with(Task::AwaitCancel, "accepted"),
            CancelPhase::AwaitEffective => perform_with(Task::AwaitCancel, "effective"),
            CancelPhase::AwaitClose => perform_with(Task::AwaitCancelledClose, "cancelled"),
            CancelPhase::Finished => Action::Finish,
        }
    }

    /// Takes a reply: the journey goes on to its next phase, or ends with a message.
    pub fn advance(&mut self, reply: Reply) -> (moved: Result<(), String>)
        ensures
            match moved {
                Ok(_) => cancel_step(old(self)@, reply@) == Ok::<CancelRunView, Seq<char>>(
                    final(self)@,
                ),
                Err(message) => {
                    &&& cancel_step(old(self)@, reply@) == Err::<CancelRunView, Seq<char>>(message@)
                    &&& final(self)@ == old(self)@
                },
            },
    {
        match (self.phase, reply) {
            (CancelPhase::PublishRequest, Reply::Record(event)) => {
                self.request_id = event.id;
                self.phase = CancelPhase::AwaitAccepted;
                Ok(())
            },
            (CancelPhase::AwaitAccepted, Reply::Record(event)) => {
                self.accepted_id = event.id;
                self.phase = CancelPhase::AwaitEffective;
                Ok(())
            },
            (CancelPhase::AwaitEffective, Reply::Record(event)) => {
                self.effective_id = event.id;
                self.phase = CancelPhase::AwaitClose;
                Ok(())
            },
            (CancelPhase::AwaitClose, Reply::Record(event)) => {
                let profile: JsonObject = record_profile(&event)?;
                if !profile_releases(&profile, self.output_amount.as_str()) {
                    return Err(
                        "unselected provider Close has invalid no-spend release accounting".to_owned(),
                    );
                }
                self.close_id = event.id;
                self.phase = CancelPhase::Finished;
                Ok(())
            },
            _ => Err(wrong_reply_text()),
        }
    }
}

/// Whether each entry of a trace leads to the one after it, from the first phase on.
pub open spec fn is_cancel_trace(trace: Seq<(CancelRunView, ReplyView)>) -> bool {
    &&& trace.len() > 0
    &&& trace[0].0.phase == CancelPhase::PublishRequest
    &&& forall|i: int|
        0 <= i < trace.len() - 1 ==> cancel_step((#[trigger] trace[i]).0, trace[i].1) == Ok::<
            CancelRunView,
            Seq<char>,
        >(trace[i + 1].0)
}

/// Each reply takes the cancelling of a session forward, never back and never in place.
pub proof fn law_cancel_moves_forward(run: CancelRunView, reply: ReplyView)
    requires
        cancel_step(run, reply) is Ok,
    ensures
        run.phase.rank() < cancel_step(run, reply)->Ok_0.phase.rank(),
{
}

/// Which replies take the cancelling of a session on, and to which phase: in each phase exactly the
/// replies that pass every check of that phase, and no others.
pub proof fn law_cancel_goes_on_only_when_answered(run: CancelRunView, reply: ReplyView)
    ensures
        ({
            let next = cancel_step(run, reply);
            match run.phase {
                CancelPhase::PublishRequest => {
                    &&& next is Ok <==> reply is Record
                    &&& next is Ok ==> next->Ok_0.phase == CancelPhase::AwaitAccepted
                },
                CancelPhase::AwaitAccepted => {
                    &&& next is Ok <==> reply is Record
                    &&& next is Ok ==> next->Ok_0.phase == CancelPhase::AwaitEffective
                },
                CancelPhase::AwaitEffective => {
                    &&& next is Ok <==> reply is Record
                    &&& next is Ok ==> next->Ok_0.phase == CancelPhase::AwaitClose
                },
                CancelPhase::AwaitClose => {
                    &&& next is Ok <==> {
                        &&& reply is Record
                        &&& profile_reading(reply->Record_content) is Ok
                        &&& releases(
                            profile_reading(reply->Record_content)->Ok_0,
                            run.output_amount,
                        )
                    }
                    &&& next is Ok ==> next->Ok_0.phase == CancelPhase::Finished
                },
                CancelPhase::Finished => next is Err,
            }
        }),
{
}

/// The reply that a trace of the cancelling of a session holds for a phase.
pub open spec fn cancel_told(
    trace: Seq<(CancelRunView, ReplyView)>,
    phase: CancelPhase,
) -> ReplyView {
    trace[choose|i: int| 0 <= i < trace.len() && (#[trigger] trace[i]).0.phase == phase].1
}

/// The values that a run of the cancelling of a session holds, by the replies that gave them: each
/// stays as the reply to one phase gave it, or as the run started with it.
pub open spec fn cancel_holds(trace: Seq<(CancelRunView, ReplyView)>, run: CancelRunView) -> bool {
    let start = trace[0].0;
    let request_id = cancel_told(trace, CancelPhase::PublishRequest)->Record_id;
    let accepted_id = cancel_told(trace, CancelPhase::AwaitAccepted)->Record_id;
    let effective_id = cancel_told(trace, CancelPhase::AwaitEffective)->Record_id;
    let close_id = cancel_told(trace, CancelPhase::AwaitClose)->Record_id;
    &&& run.provider_pubkey == start.provider_pubkey
    &&& run.session_id == start.session_id
    &&& run.order_id == start.order_id
    &&& run.output_amount == start.output_amount
    &&& run.phase.rank() > CancelPhase::PublishRequest.rank() ==> run.request_id == request_id
    &&& run.phase.rank() > CancelPhase::AwaitAccepted.rank() ==> run.accepted_id == accepted_id
    &&& run.phase.rank() > CancelPhase::AwaitEffective.rank() ==> run.effective_id == effective_id
    &&& run.phase.rank() > CancelPhase::AwaitClose.rank() ==> run.close_id == close_id
}

/// No phase of the cancelling of a session comes twice in a trace.
proof fn lemma_cancel_told_once(trace: Seq<(CancelRunView, ReplyView)>, place: int)
    requires
        is_cancel_trace(trace),
        0 <= place < trace.len(),
    ensures
        cancel_told(trace, trace[place].0.phase) == trace[place].1,
{
    let phase = trace[place].0.phase;
    let other = choose|i: int| 0 <= i < trace.len() && (#[trigger] trace[i]).0.phase == phase;
    assert(trace[place].0.phase == phase);
    if other != place {
        let (early, late) = if other < place {
            (other, place)
        } else {
            (place, other)
        };
        assert forall|run: CancelRunView, reply: ReplyView|
            (#[trigger] cancel_step(run, reply)) is Ok implies run.phase.rank() < cancel_step(
            run,
            reply,
        )->Ok_0.phase.rank() by {
            law_cancel_moves_forward(run, reply);
        }
        lemma_ranks_rise(
            trace,
            |run: CancelRunView, reply: ReplyView| cancel_step(run, reply),
            |run: CancelRunView| run.phase.rank(),
            early,
            late,
        );
    }
}

/// A reply keeps what the cancelling of a session holds, and adds what it tells.
proof fn lemma_cancel_holds_on(
    trace: Seq<(CancelRunView, ReplyView)>,
    run: CancelRunView,
    reply: ReplyView,
)
    requires
        cancel_holds(trace, run),
        cancel_told(trace, run.phase) == reply,
        cancel_step(run, reply) is Ok,
    ensures
        cancel_holds(trace, cancel_step(run, reply)->Ok_0),
{
    let next = cancel_step(run, reply)->Ok_0;
    match run.phase {
        CancelPhase::PublishRequest => assert(cancel_holds(trace, next)),
        CancelPhase::AwaitAccepted => assert(cancel_holds(trace, next)),
        CancelPhase::AwaitEffective => assert(cancel_holds(trace, next)),
        CancelPhase::AwaitClose => assert(cancel_holds(trace, next)),
        CancelPhase::Finished => assert(cancel_holds(trace, next)),
    }
}

/// What the cancelling of a session has been told, it keeps: at every place of a trace each value
/// that the run holds is the one that the reply to the phase that asks for it gave, or the one that
/// the run started with.
pub proof fn law_cancel_keeps_what_it_was_told(trace: Seq<(CancelRunView, ReplyView)>, last: int)
    requires
        is_cancel_trace(trace),
        0 <= last < trace.len(),
    ensures
        cancel_holds(trace, trace[last].0),
    decreases last,
{
    if last > 0 {
        let before = last - 1;
        law_cancel_keeps_what_it_was_told(trace, before);
        lemma_cancel_told_once(trace, before);
        assert(cancel_step(trace[before].0, trace[before].1) == Ok::<CancelRunView, Seq<char>>(
            trace[before + 1].0,
        ));
        lemma_cancel_holds_on(trace, trace[before].0, trace[before].1);
    }
}

/// What the cancelling of a session asks for in each phase, in terms of the replies before it: the
/// values in a request are those that the replies to the named phases gave, or those that the run
/// started with.
pub proof fn law_cancel_asks_with_what_it_was_told(
    trace: Seq<(CancelRunView, ReplyView)>,
    last: int,
)
    requires
        is_cancel_trace(trace),
        0 <= last < trace.len(),
    ensures
        ({
            let start = trace[0].0;
            let action = cancel_action(trace[last].0);
            match trace[last].0.phase {
                CancelPhase::PublishRequest => action == ActionView::Perform(
                    Task::PublishCancel,
                    seq![
                        "topology-cancel-request:"@ + start.session_id,
                        "topology_quote_not_selected"@,
                        "no_funding_authorized"@,
                    ],
                ),
                CancelPhase::AwaitAccepted => action == ActionView::Perform(
                    Task::AwaitCancel,
                    seq!["accepted"@],
                ),
                CancelPhase::AwaitEffective => action == ActionView::Perform(
                    Task::AwaitCancel,
                    seq!["effective"@],
                ),
                CancelPhase::AwaitClose => action == ActionView::Perform(
                    Task::AwaitCancelledClose,
                    seq!["cancelled"@],
                ),
                CancelPhase::Finished => action == ActionView::Finish,
            }
        }),
{
    law_cancel_keeps_what_it_was_told(trace, last);
}

/// What the cancelling of a session reports at its end is what it was told on the way: each
/// identifier in the report is the one that the reply to the named phase gave, or one that the run
/// started with.
pub proof fn law_cancel_result_names_what_it_was_told(
    trace: Seq<(CancelRunView, ReplyView)>,
    last: int,
)
    requires
        is_cancel_trace(trace),
        0 <= last < trace.len(),
        trace[last].0.phase == CancelPhase::Finished,
    ensures
        ({
            let start = trace[0].0;
            let request_id = cancel_told(trace, CancelPhase::PublishRequest)->Record_id;
            let accepted_id = cancel_told(trace, CancelPhase::AwaitAccepted)->Record_id;
            let effective_id = cancel_told(trace, CancelPhase::AwaitEffective)->Record_id;
            let close_id = cancel_told(trace, CancelPhase::AwaitClose)->Record_id;
            cancel_result(trace[last].0) == JsonView::Object(
                no_members().insert("provider_pubkey"@, text_doc(start.provider_pubkey)).insert("session_id"@, text_doc(start.session_id)).insert("order_id"@, text_doc(start.order_id)).insert("cancel_request_id"@, text_doc(request_id)).insert("cancel_accepted_id"@, text_doc(accepted_id)).insert("cancel_effective_id"@, text_doc(effective_id)).insert("close_id"@, text_doc(close_id)).insert(
                    "reservation_released"@,
                    text_doc(start.output_amount),
                ).insert(
                    "external_spend_effects"@,
                    number_doc(0),
                ).insert("outcome"@, text_doc("cancelled"@)),
            )
        }),
{
    law_cancel_keeps_what_it_was_told(trace, last);
}

/// Whether every reply of a trace answers the action that it is told for.
pub open spec fn is_answered_cancel(
    trace: Seq<(CancelRunView, ReplyView)>,
    kinds: RecordKinds,
    provider: Seq<char>,
) -> bool {
    forall|i: int|
        0 <= i < trace.len() - 1 ==> answers(
            cancel_action((#[trigger] trace[i]).0),
            trace[i].1,
            kinds,
            provider,
        )
}

/// A session ends as cancelled only after the provider has accepted that.
pub proof fn law_cancel_is_accepted_first(
    trace: Seq<(CancelRunView, ReplyView)>,
    kinds: RecordKinds,
    provider: Seq<char>,
    last: int,
)
    requires
        is_cancel_trace(trace),
        is_answered_cancel(trace, kinds, provider),
        0 <= last < trace.len(),
        trace[last].0.phase == CancelPhase::Finished,
    ensures
        exists|i: int|
            0 <= i < last && (#[trigger] trace[i]).0.phase == CancelPhase::AwaitAccepted && cancels(
                trace[i].1,
                kinds,
                provider,
                "accepted"@,
            ),
{
    let i = lemma_milestone(
        trace,
        |run: CancelRunView, reply: ReplyView| cancel_step(run, reply),
        |run: CancelRunView| run.phase.rank(),
        1,
        last,
    );
    assert(trace[i].0.phase == CancelPhase::AwaitAccepted);
    assert(answers(cancel_action(trace[i].0), trace[i].1, kinds, provider));
}

/// What the cancelling of a session comes to.
pub open spec fn cancel_result(run: CancelRunView) -> JsonView {
    JsonView::Object(
        no_members().insert("provider_pubkey"@, text_doc(run.provider_pubkey)).insert(
            "session_id"@,
            text_doc(run.session_id),
        ).insert("order_id"@, text_doc(run.order_id)).insert(
            "cancel_request_id"@,
            text_doc(run.request_id),
        ).insert("cancel_accepted_id"@, text_doc(run.accepted_id)).insert(
            "cancel_effective_id"@,
            text_doc(run.effective_id),
        ).insert("close_id"@, text_doc(run.close_id)).insert(
            "reservation_released"@,
            text_doc(run.output_amount),
        ).insert("external_spend_effects"@, number_doc(0)).insert(
            "outcome"@,
            text_doc("cancelled"@),
        ),
    )
}

impl CancelRun {
    fn result_document(&self) -> (document: Json)
        ensures
            document@ == cancel_result(self@),
    {
        Json::object(
            JsonObject::new().with_text("provider_pubkey", self.provider_pubkey.as_str()).with_text(
                "session_id",
                self.session_id.as_str(),
            ).with_text("order_id", self.order_id.as_str()).with_text(
                "cancel_request_id",
                self.request_id.as_str(),
            ).with_text("cancel_accepted_id", self.accepted_id.as_str()).with_text(
                "cancel_effective_id",
                self.effective_id.as_str(),
            ).with_text("close_id", self.close_id.as_str()).with_text(
                "reservation_released",
                self.output_amount.as_str(),
            ).with_number("external_spend_effects", 0).with_text("outcome", "cancelled"),
        )
    }

    /// What the cancelling of a session comes to; nothing before it is over.
    pub fn result(&self) -> (document: Option<Json>)
        ensures
            match document {
                Some(document) => self@.phase == CancelPhase::Finished && document@ == cancel_result(self@),
                None => self@.phase != CancelPhase::Finished,
            },
    {
        if self.phase == CancelPhase::Finished {
            Some(self.result_document())
        } else {
            None
        }
    }
}

/// The phases of a swap between two providers, in their order.
#[derive(Clone, Copy, Debug, PartialEq, Eq, Structural)]
pub enum TopologyPhase {
    CheckHealth,
    DiscoverProviders,
    FundWallet,
    CreateInvoice,
    QuoteFirst,
    QuoteSecond,
    CancelUnselected,
    FundSelected,
    CheckHealthAgain,
    Finished,
}

impl TopologyPhase {
    /// The place of the phase in their order.
    pub open spec fn rank(self) -> int {
        match self {
            TopologyPhase::CheckHealth => 0,
            TopologyPhase::DiscoverProviders => 1,
            TopologyPhase::FundWallet => 2,
            TopologyPhase::CreateInvoice => 3,
            TopologyPhase::QuoteFirst => 4,
            TopologyPhase::QuoteSecond => 5,
            TopologyPhase::CancelUnselected => 6,
            TopologyPhase::FundSelected => 7,
            TopologyPhase::CheckHealthAgain => 8,
            TopologyPhase::Finished => 9,
        }
    }
}

/// A swap that two providers quote, one of which is selected and the other cancelled.
pub struct TopologyRun {
    pub phase: TopologyPhase,
    pub wallet_pubkey: String,
    pub first_provider: String,
    pub second_provider: String,
    pub payment_hash: String,
    pub invoice: String,
    pub first: Option<TopologyCandidate>,
    pub second: Option<TopologyCandidate>,
    pub selected_first: bool,
    pub cancellation: Json,
    pub selected_journey: Json,
}

/// A swap that two providers quote, one of which is selected and the other cancelled.
#[verifier::ext_equal]
pub struct TopologyRunView {
    pub phase: TopologyPhase,
    pub wallet_pubkey: Seq<char>,
    pub first_provider: Seq<char>,
    pub second_provider: Seq<char>,
    pub payment_hash: Seq<char>,
    pub invoice: Seq<char>,
    pub first: Option<TopologyCandidate>,
    pub second: Option<TopologyCandidate>,
    pub selected_first: bool,
    pub cancellation: JsonView,
    pub selected_journey: JsonView,
}

impl View for TopologyRun {
    type V = TopologyRunView;

    open spec fn view(&self) -> TopologyRunView {
        TopologyRunView {
            phase: self.phase,
            wallet_pubkey: self.wallet_pubkey@,
            first_provider: self.first_provider@,
            second_provider: self.second_provider@,
            payment_hash: self.payment_hash@,
            invoice: self.invoice@,
            first: self.first,
            second: self.second,
            selected_first: self.selected_first,
            cancellation: self.cancellation@,
            selected_journey: self.selected_journey@,
        }
    }
}

/// What a swap between two providers asks for next.
pub open spec fn topology_action(run: TopologyRunView) -> ActionView {
    match run.phase {
        TopologyPhase::CheckHealth => ActionView::CheckHealth,
        TopologyPhase::DiscoverProviders => ActionView::Perform(Task::DiscoverProviders, seq![]),
        TopologyPhase::FundWallet => ActionView::Perform(Task::FundWallet, seq![]),
        TopologyPhase::CreateInvoice => ActionView::Perform(
            Task::CreateInvoice,
            seq![
                "immortal-funded-topology-submarine"@,
                decimal(OUTPUT_AMOUNT_SAT as nat),
                "Immortal funded topology submarine"@,
                decimal(INVOICE_EXPIRY_SECONDS as nat),
            ],
        ),
        TopologyPhase::QuoteFirst => ActionView::Perform(
            Task::Quote,
            seq!["topology_a"@, run.payment_hash, run.invoice],
        ),
        TopologyPhase::QuoteSecond => ActionView::Perform(
            Task::Quote,
            seq!["topology_b"@, run.payment_hash, run.invoice],
        ),
        TopologyPhase::CancelUnselected => ActionView::Perform(
            Task::CancelSession,
            seq![journey_of(!run.selected_first)],
        ),
        TopologyPhase::FundSelected => ActionView::Perform(
            Task::FundSession,
            seq![journey_of(run.selected_first)],
        ),
        TopologyPhase::CheckHealthAgain => ActionView::CheckHealth,
        TopologyPhase::Finished => ActionView::Finish,
    }
}

/// Where a reply takes a swap between two providers.
pub open spec fn topology_step(run: TopologyRunView, reply: ReplyView) -> Result<
    TopologyRunView,
    Seq<char>,
> {
    match (run.phase, reply) {
        (TopologyPhase::CheckHealth, ReplyView::Done) => Ok(
            TopologyRunView { phase: TopologyPhase::DiscoverProviders, ..run },
        ),
        (TopologyPhase::DiscoverProviders, ReplyView::Texts(texts)) => {
            if texts.len() != 2 {
                Err(wrong_reply())
            } else if texts[0] == texts[1] {
                Err("funded topology did not discover two distinct providers"@)
            } else {
                Ok(
                    TopologyRunView {
                        phase: TopologyPhase::FundWallet,
                        first_provider: texts[0],
                        second_provider: texts[1],
                        ..run
                    },
                )
            }
        },
        (TopologyPhase::FundWallet, ReplyView::Done) => Ok(
            TopologyRunView { phase: TopologyPhase::CreateInvoice, ..run },
        ),
        (TopologyPhase::CreateInvoice, ReplyView::Texts(texts)) => {
            if texts.len() != 2 {
                Err(wrong_reply())
            } else {
                Ok(
                    TopologyRunView {
                        phase: TopologyPhase::QuoteFirst,
                        payment_hash: texts[0],
                        invoice: texts[1],
                        ..run
                    },
                )
            }
        },
        (TopologyPhase::QuoteFirst, ReplyView::Quoted(candidate)) => Ok(
            TopologyRunView { phase: TopologyPhase::QuoteSecond, first: Some(candidate), ..run },
        ),
        (TopologyPhase::QuoteSecond, ReplyView::Quoted(candidate)) => match run.first {
            None => Err("funded topology has no selected candidate"@),
            Some(first) => {
                if !are_comparable(first, candidate) {
                    Err("funded topology Quotes are not economically comparable"@)
                } else {
                    Ok(
                        TopologyRunView {
                            phase: TopologyPhase::CancelUnselected,
                            second: Some(candidate),
                            selected_first: comes_first(first, candidate),
                            ..run
                        },
                    )
                }
            },
        },
        (TopologyPhase::CancelUnselected, ReplyView::Document(Some(document))) => Ok(
            TopologyRunView { phase: TopologyPhase::FundSelected, cancellation: document, ..run },
        ),
        (TopologyPhase::FundSelected, ReplyView::Document(Some(document))) => Ok(
            TopologyRunView {
                phase: TopologyPhase::CheckHealthAgain,
                selected_journey: document,
                ..run
            },
        ),
        (TopologyPhase::CheckHealthAgain, ReplyView::Done) => Ok(
            TopologyRunView { phase: TopologyPhase::Finished, ..run },
        ),
        _ => Err(wrong_reply()),
    }
}

impl TopologyRun {
    /// A swap between two providers before its first action.
    pub fn new(wallet_pubkey: &str) -> (run: TopologyRun)
        ensures
            run@.phase == TopologyPhase::CheckHealth,
            run@.wallet_pubkey == wallet_pubkey@,
            run@.first_provider == Seq::<char>::empty(),
            run@.second_provider == Seq::<char>::empty(),
            run@.payment_hash == Seq::<char>::empty(),
            run@.invoice == Seq::<char>::empty(),
            run@.first is None,
            run@.second is None,
            run@.selected_first == false,
            run@.cancellation == JsonView::Null,
            run@.selected_journey == JsonView::Null,
    {
        TopologyRun {
            phase: TopologyPhase::CheckHealth,
            wallet_pubkey: wallet_pubkey.to_owned(),
            first_provider: String::new(),
            second_provider: String::new(),
            payment_hash: String::new(),
            invoice: String::new(),
            first: None,
            second: None,
            selected_first: false,
            cancellation: Json::null(),
            selected_journey: Json::null(),
        }
    }

    /// What the journey asks for next.
    pub fn action(&self) -> (action: Action)
        ensures
            action@ == topology_action(self@),
    {
        match self.phase {
            TopologyPhase::CheckHealth => Action::CheckHealth,
            TopologyPhase::DiscoverProviders => perform(Task::DiscoverProviders),
            TopologyPhase::FundWallet => perform(Task::FundWallet),
            TopologyPhase::CreateInvoice => perform_with_four(
                Task::CreateInvoice,
                "immortal-funded-topology-submarine",
                decimal_text(OUTPUT_AMOUNT_SAT).as_str(),
                "Immortal funded topology submarine",
                decimal_text(INVOICE_EXPIRY_SECONDS).as_str(),
            ),
            TopologyPhase::QuoteFirst => perform_with_three(
                Task::Quote,
                "topology_a",
                self.payment_hash.as_str(),
                self.invoice.as_str(),
            ),
            TopologyPhase::QuoteSecond => perform_with_three(
                Task::Quote,
                "topology_b",
                self.payment_hash.as_str(),
                self.invoice.as_str(),
            ),
            TopologyPhase::CancelUnselected => perform_with(
                Task::CancelSession,
                journey_text(!self.selected_first),
            ),
            TopologyPhase::FundSelected => perform_with(
                Task::FundSession,
                journey_text(self.selected_first),
            ),
            TopologyPhase::CheckHealthAgain => Action::CheckHealth,
            TopologyPhase::Finished => Action::Finish,
        }
    }

    /// Takes a reply: the journey goes on to its next phase, or ends with a message.
    #[verifier::rlimit(60)]
    pub fn advance(&mut self, reply: Reply) -> (moved: Result<(), String>)
        ensures
            match moved {
                Ok(_) => topology_step(old(self)@, reply@) == Ok::<TopologyRunView, Seq<char>>(
                    final(self)@,
                ),
                Err(message) => {
                    &&& topology_step(old(self)@, reply@) == Err::<TopologyRunView, Seq<char>>(
                        message@,
                    )
                    &&& final(self)@ == old(self)@
                },
            },
    {
        match (self.phase, reply) {
            (TopologyPhase::CheckHealth, Reply::Done) => {
                self.phase = TopologyPhase::DiscoverProviders;
                Ok(())
            },
            (TopologyPhase::DiscoverProviders, Reply::Texts(texts)) => {
                if texts.len() != 2 {
                    return Err(wrong_reply_text());
                }
                if same_text(texts[0].as_str(), texts[1].as_str()) {
                    return Err(
                        "funded topology did not discover two distinct providers".to_owned(),
                    );
                }
                self.first_provider = texts[0].clone();
                self.second_provider = texts[1].clone();
                self.phase = TopologyPhase::FundWallet;
                Ok(())
            },
            (TopologyPhase::FundWallet, Reply::Done) => {
                self.phase = TopologyPhase::CreateInvoice;
                Ok(())
            },
            (TopologyPhase::CreateInvoice, Reply::Texts(texts)) => {
                if texts.len() != 2 {
                    return Err(wrong_reply_text());
                }
                self.payment_hash = texts[0].clone();
                self.invoice = texts[1].clone();
                self.phase = TopologyPhase::QuoteFirst;
                Ok(())
            },
            (TopologyPhase::QuoteFirst, Reply::Quoted(candidate)) => {
                self.first = Some(candidate);
                self.phase = TopologyPhase::QuoteSecond;
                Ok(())
            },
            (TopologyPhase::QuoteSecond, Reply::Quoted(candidate)) => {
                let first: (bool, bool) = match &self.first {
                    Some(first) => (first.is_comparable(&candidate), first.precedes(&candidate)),
                    None => {
                        return Err("funded topology has no selected candidate".to_owned());
                    },
                };
                if !first.0 {
                    return Err("funded topology Quotes are not economically comparable".to_owned());
                }
                self.second = Some(candidate);
                self.selected_first = first.1;
                self.phase = TopologyPhase::CancelUnselected;
                Ok(())
            },
            (TopologyPhase::CancelUnselected, Reply::Document(Some(document))) => {
                self.cancellation = document;
                self.phase = TopologyPhase::FundSelected;
                Ok(())
            },
            (TopologyPhase::FundSelected, Reply::Document(Some(document))) => {
                self.selected_journey = document;
                self.phase = TopologyPhase::CheckHealthAgain;
                Ok(())
            },
            (TopologyPhase::CheckHealthAgain, Reply::Done) => {
                self.phase = TopologyPhase::Finished;
                Ok(())
            },
            _ => Err(wrong_reply_text()),
        }
    }
}

/// Whether each entry of a trace leads to the one after it, from the first phase on.
pub open spec fn is_topology_trace(trace: Seq<(TopologyRunView, ReplyView)>) -> bool {
    &&& trace.len() > 0
    &&& trace[0].0.phase == TopologyPhase::CheckHealth
    &&& forall|i: int|
        0 <= i < trace.len() - 1 ==> topology_step((#[trigger] trace[i]).0, trace[i].1) == Ok::<
            TopologyRunView,
            Seq<char>,
        >(trace[i + 1].0)
}

/// Each reply takes a swap between two providers forward, never back and never in place.
pub proof fn law_topology_moves_forward(run: TopologyRunView, reply: ReplyView)
    requires
        topology_step(run, reply) is Ok,
    ensures
        run.phase.rank() < topology_step(run, reply)->Ok_0.phase.rank(),
{
}

/// Which replies take a swap between two providers on, and to which phase: in each phase exactly
/// the replies that pass every check of that phase, and no others.
pub proof fn law_topology_goes_on_only_when_answered(run: TopologyRunView, reply: ReplyView)
    ensures
        ({
            let next = topology_step(run, reply);
            match run.phase {
                TopologyPhase::CheckHealth => {
                    &&& next is Ok <==> reply is Done
                    &&& next is Ok ==> next->Ok_0.phase == TopologyPhase::DiscoverProviders
                },
                TopologyPhase::DiscoverProviders => {
                    &&& next is Ok <==> {
                        &&& reply is Texts
                        &&& reply->Texts_0.len() == 2
                        &&& reply->Texts_0[0] != reply->Texts_0[1]
                    }
                    &&& next is Ok ==> next->Ok_0.phase == TopologyPhase::FundWallet
                },
                TopologyPhase::FundWallet => {
                    &&& next is Ok <==> reply is Done
                    &&& next is Ok ==> next->Ok_0.phase == TopologyPhase::CreateInvoice
                },
                TopologyPhase::CreateInvoice => {
                    &&& next is Ok <==> {
                        &&& reply is Texts
                        &&& reply->Texts_0.len() == 2
                    }
                    &&& next is Ok ==> next->Ok_0.phase == TopologyPhase::QuoteFirst
                },
                TopologyPhase::QuoteFirst => {
                    &&& next is Ok <==> reply is Quoted
                    &&& next is Ok ==> next->Ok_0.phase == TopologyPhase::QuoteSecond
                },
                TopologyPhase::QuoteSecond => {
                    &&& next is Ok <==> {
                        &&& reply is Quoted
                        &&& run.first is Some
                        &&& are_comparable(run.first->0, reply->Quoted_0)
                    }
                    &&& next is Ok ==> next->Ok_0.phase == TopologyPhase::CancelUnselected
                },
                TopologyPhase::CancelUnselected => {
                    &&& next is Ok <==> {
                        &&& reply is Document
                        &&& reply->Document_0 is Some
                    }
                    &&& next is Ok ==> next->Ok_0.phase == TopologyPhase::FundSelected
                },
                TopologyPhase::FundSelected => {
                    &&& next is Ok <==> {
                        &&& reply is Document
                        &&& reply->Document_0 is Some
                    }
                    &&& next is Ok ==> next->Ok_0.phase == TopologyPhase::CheckHealthAgain
                },
                TopologyPhase::CheckHealthAgain => {
                    &&& next is Ok <==> reply is Done
                    &&& next is Ok ==> next->Ok_0.phase == TopologyPhase::Finished
                },
                TopologyPhase::Finished => next is Err,
            }
        }),
{
}

/// The reply that a trace of a swap between two providers holds for a phase.
pub open spec fn topology_told(
    trace: Seq<(TopologyRunView, ReplyView)>,
    phase: TopologyPhase,
) -> ReplyView {
    trace[choose|i: int| 0 <= i < trace.len() && (#[trigger] trace[i]).0.phase == phase].1
}

/// The values that a run of a swap between two providers holds, by the replies that gave them: each
/// stays as the reply to one phase gave it, or as the run started with it.
pub open spec fn topology_holds(
    trace: Seq<(TopologyRunView, ReplyView)>,
    run: TopologyRunView,
) -> bool {
    let start = trace[0].0;
    let first_provider = topology_told(trace, TopologyPhase::DiscoverProviders)->Texts_0[0];
    let second_provider = topology_told(trace, TopologyPhase::DiscoverProviders)->Texts_0[1];
    let payment_hash = topology_told(trace, TopologyPhase::CreateInvoice)->Texts_0[0];
    let invoice = topology_told(trace, TopologyPhase::CreateInvoice)->Texts_0[1];
    let first = Some(topology_told(trace, TopologyPhase::QuoteFirst)->Quoted_0);
    let second = Some(topology_told(trace, TopologyPhase::QuoteSecond)->Quoted_0);
    let selected_first = comes_first(first->0, topology_told(trace, TopologyPhase::QuoteSecond)->Quoted_0);
    let cancellation = topology_told(trace, TopologyPhase::CancelUnselected)->Document_0->0;
    let selected_journey = topology_told(trace, TopologyPhase::FundSelected)->Document_0->0;
    &&& run.wallet_pubkey == start.wallet_pubkey
    &&& run.phase.rank() > TopologyPhase::DiscoverProviders.rank()
        ==> run.first_provider == first_provider
    &&& run.phase.rank() > TopologyPhase::DiscoverProviders.rank()
        ==> run.second_provider == second_provider
    &&& run.phase.rank() > TopologyPhase::CreateInvoice.rank() ==> run.payment_hash == payment_hash
    &&& run.phase.rank() > TopologyPhase::CreateInvoice.rank() ==> run.invoice == invoice
    &&& run.phase.rank() > TopologyPhase::QuoteFirst.rank() ==> run.first == first
    &&& run.phase.rank() > TopologyPhase::QuoteSecond.rank() ==> run.second == second
    &&& run.phase.rank() > TopologyPhase::QuoteSecond.rank()
        ==> run.selected_first == selected_first
    &&& run.phase.rank() > TopologyPhase::CancelUnselected.rank()
        ==> run.cancellation == cancellation
    &&& run.phase.rank() > TopologyPhase::FundSelected.rank()
        ==> run.selected_journey == selected_journey
}

/// No phase of a swap between two providers comes twice in a trace.
proof fn lemma_topology_told_once(trace: Seq<(TopologyRunView, ReplyView)>, place: int)
    requires
        is_topology_trace(trace),
        0 <= place < trace.len(),
    ensures
        topology_told(trace, trace[place].0.phase) == trace[place].1,
{
    let phase = trace[place].0.phase;
    let other = choose|i: int| 0 <= i < trace.len() && (#[trigger] trace[i]).0.phase == phase;
    assert(trace[place].0.phase == phase);
    if other != place {
        let (early, late) = if other < place {
            (other, place)
        } else {
            (place, other)
        };
        assert forall|run: TopologyRunView, reply: ReplyView|
            (#[trigger] topology_step(run, reply)) is Ok implies run.phase.rank() < topology_step(
            run,
            reply,
        )->Ok_0.phase.rank() by {
            law_topology_moves_forward(run, reply);
        }
        lemma_ranks_rise(
            trace,
            |run: TopologyRunView, reply: ReplyView| topology_step(run, reply),
            |run: TopologyRunView| run.phase.rank(),
            early,
            late,
        );
    }
}

/// A reply keeps what a swap between two providers holds, and adds what it tells.
proof fn lemma_topology_holds_on(
    trace: Seq<(TopologyRunView, ReplyView)>,
    run: TopologyRunView,
    reply: ReplyView,
)
    requires
        topology_holds(trace, run),
        topology_told(trace, run.phase) == reply,
        topology_step(run, reply) is Ok,
    ensures
        topology_holds(trace, topology_step(run, reply)->Ok_0),
{
    let next = topology_step(run, reply)->Ok_0;
    match run.phase {
        TopologyPhase::CheckHealth => assert(topology_holds(trace, next)),
        TopologyPhase::DiscoverProviders => assert(topology_holds(trace, next)),
        TopologyPhase::FundWallet => assert(topology_holds(trace, next)),
        TopologyPhase::CreateInvoice => assert(topology_holds(trace, next)),
        TopologyPhase::QuoteFirst => assert(topology_holds(trace, next)),
        TopologyPhase::QuoteSecond => assert(topology_holds(trace, next)),
        TopologyPhase::CancelUnselected => assert(topology_holds(trace, next)),
        TopologyPhase::FundSelected => assert(topology_holds(trace, next)),
        TopologyPhase::CheckHealthAgain => assert(topology_holds(trace, next)),
        TopologyPhase::Finished => assert(topology_holds(trace, next)),
    }
}

/// What a swap between two providers has been told, it keeps: at every place of a trace each value
/// that the run holds is the one that the reply to the phase that asks for it gave, or the one that
/// the run started with.
pub proof fn law_topology_keeps_what_it_was_told(
    trace: Seq<(TopologyRunView, ReplyView)>,
    last: int,
)
    requires
        is_topology_trace(trace),
        0 <= last < trace.len(),
    ensures
        topology_holds(trace, trace[last].0),
    decreases last,
{
    if last > 0 {
        let before = last - 1;
        law_topology_keeps_what_it_was_told(trace, before);
        lemma_topology_told_once(trace, before);
        assert(topology_step(trace[before].0, trace[before].1) == Ok::<TopologyRunView, Seq<char>>(
            trace[before + 1].0,
        ));
        lemma_topology_holds_on(trace, trace[before].0, trace[before].1);
    }
}

/// What a swap between two providers asks for in each phase, in terms of the replies before it: the
/// values in a request are those that the replies to the named phases gave, or those that the run
/// started with.
pub proof fn law_topology_asks_with_what_it_was_told(
    trace: Seq<(TopologyRunView, ReplyView)>,
    last: int,
)
    requires
        is_topology_trace(trace),
        0 <= last < trace.len(),
    ensures
        ({
            let payment_hash = topology_told(trace, TopologyPhase::CreateInvoice)->Texts_0[0];
            let invoice = topology_told(trace, TopologyPhase::CreateInvoice)->Texts_0[1];
            let first = Some(topology_told(trace, TopologyPhase::QuoteFirst)->Quoted_0);
            let selected_first = comes_first(first->0, topology_told(trace, TopologyPhase::QuoteSecond)->Quoted_0);
            let action = topology_action(trace[last].0);
            match trace[last].0.phase {
                TopologyPhase::CheckHealth => action == ActionView::CheckHealth,
                TopologyPhase::DiscoverProviders => action == ActionView::Perform(
                    Task::DiscoverProviders,
                    seq![],
                ),
                TopologyPhase::FundWallet => action == ActionView::Perform(
                    Task::FundWallet,
                    seq![],
                ),
                TopologyPhase::CreateInvoice => action == ActionView::Perform(
                    Task::CreateInvoice,
                    seq![
                        "immortal-funded-topology-submarine"@,
                        decimal(OUTPUT_AMOUNT_SAT as nat),
                        "Immortal funded topology submarine"@,
                        decimal(INVOICE_EXPIRY_SECONDS as nat),
                    ],
                ),
                TopologyPhase::QuoteFirst => action == ActionView::Perform(
                    Task::Quote,
                    seq!["topology_a"@, payment_hash, invoice],
                ),
                TopologyPhase::QuoteSecond => action == ActionView::Perform(
                    Task::Quote,
                    seq!["topology_b"@, payment_hash, invoice],
                ),
                TopologyPhase::CancelUnselected => action == ActionView::Perform(
                    Task::CancelSession,
                    seq![journey_of(!selected_first)],
                ),
                TopologyPhase::FundSelected => action == ActionView::Perform(
                    Task::FundSession,
                    seq![journey_of(selected_first)],
                ),
                TopologyPhase::CheckHealthAgain => action == ActionView::CheckHealth,
                TopologyPhase::Finished => action == ActionView::Finish,
            }
        }),
{
    law_topology_keeps_what_it_was_told(trace, last);
}

/// The selected session is funded only after the other one was cancelled.
pub proof fn law_unselected_is_cancelled_first(trace: Seq<(TopologyRunView, ReplyView)>, last: int)
    requires
        is_topology_trace(trace),
        0 <= last < trace.len(),
        trace[last].0.phase == TopologyPhase::FundSelected,
    ensures
        exists|i: int|
            0 <= i < last && (#[trigger] trace[i]).0.phase == TopologyPhase::CancelUnselected &&
                (trace[i].1 matches ReplyView::Document(Some(_))),
{
    let i = lemma_milestone(
        trace,
        |run: TopologyRunView, reply: ReplyView| topology_step(run, reply),
        |run: TopologyRunView| run.phase.rank(),
        6,
        last,
    );
    assert(trace[i].0.phase == TopologyPhase::CancelUnselected);
    assert(topology_step(trace[i].0, trace[i].1) == Ok::<TopologyRunView, Seq<char>>(trace[i +
        1].0));
}

/// What a swap between two providers comes to; nothing before it is over.
pub open spec fn topology_result(run: TopologyRunView) -> Option<JsonView> {
    match (run.first, run.second) {
        (Some(first), Some(second)) if run.phase == TopologyPhase::Finished => {
            let selected = if run.selected_first {
                first
            } else {
                second
            };
            let unselected = if run.selected_first {
                second
            } else {
                first
            };
            Some(
                JsonView::Object(
                    no_members().insert(
                        "schema"@,
                        text_doc("openagents.immortal.funded-topology-result.v1"@),
                    ).insert("wallet_pubkey"@, text_doc(run.wallet_pubkey)).insert(
                        "candidates"@,
                        JsonView::Array(seq![ranked_doc(selected, 1), ranked_doc(unselected, 2)]),
                    ).insert(
                        "selection"@,
                        JsonView::Object(
                            no_members().insert("policy"@, texts_doc(selection_policy())).insert(
                                "selected_provider_pubkey"@,
                                text_doc(selected.provider_pubkey@),
                            ).insert("selected_quote_id"@, text_doc(selected.quote_id@)),
                        ),
                    ).insert("unselected"@, run.cancellation).insert(
                        "selected"@,
                        run.selected_journey,
                    ),
                ),
            )
        },
        _ => None,
    }
}

impl TopologyRun {
    /// What a swap between two providers comes to; nothing before it is over.
    pub fn result(&self) -> (document: Option<Json>)
        ensures
            (match document {
                Some(document) => Some(document@),
                None => None,
            }) == topology_result(self@),
    {
        match (&self.first, &self.second) {
            (Some(first), Some(second)) if self.phase == TopologyPhase::Finished => {
                let selected: &TopologyCandidate = if self.selected_first {
                    first
                } else {
                    second
                };
                let unselected: &TopologyCandidate = if self.selected_first {
                    second
                } else {
                    first
                };
                let entries: Vec<Json> = vec![selected.ranked(1), unselected.ranked(2)];
                proof {
                    lemma_items_view(entries@);
                    assert(items_view(entries@) =~= seq![
                        ranked_doc(*selected, 1),
                        ranked_doc(*unselected, 2),
                    ]);
                }
                let ranked: Json = Json::array(entries);
                Some(
                    Json::object(
                        JsonObject::new().with_text(
                            "schema",
                            "openagents.immortal.funded-topology-result.v1",
                        ).with_text("wallet_pubkey", self.wallet_pubkey.as_str()).with(
                            "candidates",
                            ranked,
                        ).with(
                            "selection",
                            Json::object(
                                JsonObject::new().with("policy", policy()).with(
                                    "selected_provider_pubkey",
                                    Json::text(selected.provider_pubkey.as_str()),
                                ).with("selected_quote_id", Json::text(selected.quote_id.as_str())),
                            ),
                        ).with("unselected", self.cancellation.copy()).with(
                            "selected",
                            self.selected_journey.copy(),
                        ),
                    ),
                )
            },
            _ => None,
        }
    }
}

/// What an active reservation is.
pub struct Reservation {
    pub rfq_id: String,
    pub quote_id: String,
    pub reservation_id: String,
    pub capacity_bucket_id: String,
}

/// What an active reservation is.
#[verifier::ext_equal]
pub struct ReservationView {
    pub rfq_id: Seq<char>,
    pub quote_id: Seq<char>,
    pub reservation_id: Seq<char>,
    pub capacity_bucket_id: Seq<char>,
}

impl View for Reservation {
    type V = ReservationView;

    open spec fn view(&self) -> ReservationView {
        ReservationView {
            rfq_id: self.rfq_id@,
            quote_id: self.quote_id@,
            reservation_id: self.reservation_id@,
            capacity_bucket_id: self.capacity_bucket_id@,
        }
    }
}

/// Whether a capacity has room for one reservation of this size and for no second one.
pub open spec fn leaves_room_for_one(reserved: u64, committed: u64) -> bool {
    &&& reserved == DOUBLE_RESERVATION_OUTPUT_AMOUNT_SAT
    &&& committed >= DOUBLE_RESERVATION_INPUT_AMOUNT_SAT
    &&& committed - reserved < DOUBLE_RESERVATION_INPUT_AMOUNT_SAT
}

/// What the reservation of an active session reads as.
pub open spec fn reservation_reading(records: Seq<Event>, kinds: RecordKinds) -> Result<
    ReservationView,
    Seq<char>,
> {
    match first_of_kind(records, kinds.rfq) {
        None => Err("double-reservation active session has no RFQ"@),
        Some(rfq) => match first_of_kind(records, kinds.quote) {
            None => Err("double-reservation active session has no Quote"@),
            Some(quote) => match profile_reading(quote.content@) {
                Err(message) => Err(message),
                Ok(profile) => match members_of(
                    member(JsonView::Object(profile), "reservation_terms"@),
                ) {
                    None => Err("double-reservation active Quote has no hard reservation"@),
                    Some(terms) => if tag_values(quote.tags@, "reservation"@) != seq!["hard"@] {
                        Err("double-reservation active Quote is not hard"@)
                    } else {
                        terms_of_reservation(terms, rfq.id@, quote.id@)
                    },
                },
            },
        },
    }
}

/// What the reservation of an active session reads as: it can be had exactly where every part that
/// it rests on can, and each part of it is the one that its name says.
pub proof fn law_reservation_is_read_from_its_parts(records: Seq<Event>, kinds: RecordKinds)
    ensures
        ({
            let read = reservation_reading(records, kinds);
            let rfq = first_of_kind(records, kinds.rfq)->0;
            let quote = first_of_kind(records, kinds.quote)->0;
            let profile = profile_reading(quote.content@)->Ok_0;
            let terms = members_of(member(JsonView::Object(profile), "reservation_terms"@))->0;
            let given = read->Ok_0;
            &&& read is Ok <==> {
                &&& first_of_kind(records, kinds.rfq) is Some
                &&& first_of_kind(records, kinds.quote) is Some
                &&& profile_reading(quote.content@) is Ok
                &&& members_of(member(JsonView::Object(profile), "reservation_terms"@)) is Some
                &&& tag_values(quote.tags@, "reservation"@) == seq!["hard"@]
                &&& terms_of_reservation(terms, rfq.id@, quote.id@) is Ok
            }
            &&& read is Ok ==> {
                &&& given == terms_of_reservation(terms, rfq.id@, quote.id@)->Ok_0
            }
        }),
{
}

/// What the terms of a reservation read as.
pub open spec fn terms_of_reservation(
    terms: Map<Seq<char>, JsonView>,
    rfq_id: Seq<char>,
    quote_id: Seq<char>,
) -> Result<ReservationView, Seq<char>> {
    match required_reading(terms, "reservation_id"@) {
        Err(message) => Err(message),
        Ok(reservation_id) => match required_reading(terms, "capacity_bucket_id"@) {
            Err(message) => Err(message),
            Ok(capacity_bucket_id) => if capacity_bucket_id != "lightning-outbound"@ {
                Err("double-reservation active Quote used another capacity bucket"@)
            } else {
                match required_amount(terms, "reserved_amount"@) {
                    Err(message) => Err(message),
                    Ok(reserved) => match required_amount(terms, "handler_committed_capacity"@) {
                        Err(message) => Err(message),
                        Ok(committed) => if !leaves_room_for_one(reserved, committed) {
                            Err(
                                "live provider capacity does not create one-reservation contention"@,
                            )
                        } else {
                            Ok(
                                ReservationView {
                                    rfq_id,
                                    quote_id,
                                    reservation_id,
                                    capacity_bucket_id,
                                },
                            )
                        },
                    },
                }
            },
        },
    }
}

/// What the terms of a reservation read as: it can be had exactly where every part that it rests on
/// can, and each part of it is the one that its name says.
pub proof fn law_terms_of_reservation_is_read_from_its_parts(
    terms: Map<Seq<char>, JsonView>,
    rfq_id: Seq<char>,
    quote_id: Seq<char>,
)
    ensures
        ({
            let read = terms_of_reservation(terms, rfq_id, quote_id);
            let capacity_bucket_id = required_reading(terms, "capacity_bucket_id"@)->Ok_0;
            let given = read->Ok_0;
            &&& read is Ok <==> {
                &&& required_reading(terms, "reservation_id"@) is Ok
                &&& required_reading(terms, "capacity_bucket_id"@) is Ok
                &&& capacity_bucket_id == "lightning-outbound"@
                &&& required_amount(terms, "reserved_amount"@) is Ok
                &&& required_amount(terms, "handler_committed_capacity"@) is Ok
                &&& leaves_room_for_one(
                    required_amount(terms, "reserved_amount"@)->Ok_0,
                    required_amount(terms, "handler_committed_capacity"@)->Ok_0,
                )
            }
            &&& read is Ok ==> {
                &&& given.rfq_id == rfq_id
                &&& given.quote_id == quote_id
                &&& given.reservation_id == required_reading(terms, "reservation_id"@)->Ok_0
                &&& given.capacity_bucket_id == capacity_bucket_id
            }
        }),
{
}

/// The reservation of an active session, which leaves no room for a second one.
pub fn active_reservation(records: &Vec<Event>, kinds: RecordKinds) -> (reservation: Result<
    Reservation,
    String,
>)
    ensures
        (match reservation {
            Ok(reservation) => Ok(reservation@),
            Err(message) => Err(message@),
        }) == reservation_reading(records@, kinds),
{
    let rfq: &Event = match find_kind(records, kinds.rfq) {
        Some(rfq) => rfq,
        None => {
            return Err("double-reservation active session has no RFQ".to_owned());
        },
    };
    let quote: &Event = match find_kind(records, kinds.quote) {
        Some(quote) => quote,
        None => {
            return Err("double-reservation active session has no Quote".to_owned());
        },
    };
    let profile: JsonObject = record_profile(quote)?;
    let terms: &JsonObject = match profile.get("reservation_terms") {
        Some(value) => match value.as_object() {
            Some(terms) => terms,
            None => {
                return Err("double-reservation active Quote has no hard reservation".to_owned());
            },
        },
        None => {
            return Err("double-reservation active Quote has no hard reservation".to_owned());
        },
    };
    if !has_only_tag(quote, "reservation", "hard") {
        return Err("double-reservation active Quote is not hard".to_owned());
    }
    let reservation_id: &str = required_string(terms, "reservation_id")?;
    let capacity_bucket_id: &str = required_string(terms, "capacity_bucket_id")?;
    if !same_text(capacity_bucket_id, "lightning-outbound") {
        return Err("double-reservation active Quote used another capacity bucket".to_owned());
    }
    let reserved: u64 = amount_member(terms, "reserved_amount")?;
    let committed: u64 = amount_member(terms, "handler_committed_capacity")?;
    if reserved != DOUBLE_RESERVATION_OUTPUT_AMOUNT_SAT || committed
        < DOUBLE_RESERVATION_INPUT_AMOUNT_SAT || committed - reserved
        >= DOUBLE_RESERVATION_INPUT_AMOUNT_SAT {
        return Err(
            "live provider capacity does not create one-reservation contention".to_owned(),
        );
    }
    Ok(
        Reservation {
            rfq_id: rfq.id.clone(),
            quote_id: quote.id.clone(),
            reservation_id: reservation_id.to_owned(),
            capacity_bucket_id: capacity_bucket_id.to_owned(),
        },
    )
}

/// A capacity that leaves room for one reservation has none for a second of the same size.
pub proof fn law_second_reservation_does_not_fit(reserved: u64, committed: u64)
    requires
        leaves_room_for_one(reserved, committed),
    ensures
        reserved <= committed,
        reserved + DOUBLE_RESERVATION_INPUT_AMOUNT_SAT > committed,
{
}

/// The proof that a provider's capacity was asked for twice.
pub open spec fn double_reservation_doc(
    provider: Seq<char>,
    reservation: ReservationView,
    active_session: Seq<char>,
    refused_session: Seq<char>,
    refused_rfq: Seq<char>,
) -> JsonView {
    JsonView::Object(
        no_members().insert("proof_class"@, text_doc("live_double_reservation"@)).insert(
            "provider_pubkey"@,
            text_doc(provider),
        ).insert("capacity_bucket_id"@, text_doc(reservation.capacity_bucket_id)).insert(
            "daemon_reservation_id"@,
            text_doc(reservation.reservation_id),
        ).insert(
            "active"@,
            JsonView::Object(
                no_members().insert("session_id"@, text_doc(active_session)).insert(
                    "rfq_id"@,
                    text_doc(reservation.rfq_id),
                ).insert("quote_id"@, text_doc(reservation.quote_id)).insert(
                    "reservation_id"@,
                    text_doc(reservation.reservation_id),
                ),
            ),
        ).insert(
            "refused"@,
            JsonView::Object(
                no_members().insert("session_id"@, text_doc(refused_session)).insert(
                    "rfq_id"@,
                    text_doc(refused_rfq),
                ).insert("expected_code"@, text_doc("swp_reservation_overallocated"@)).insert(
                    "provider_wire_refusal"@,
                    JsonView::Null,
                ).insert("surface"@, text_doc("lab_process_audit_required"@)),
            ),
        ).insert(
            "checks"@,
            JsonView::Object(
                no_members().insert("same_provider"@, JsonView::Bool(true)).insert(
                    "same_capacity_bucket"@,
                    JsonView::Bool(true),
                ).insert("overlapping_signed_sessions"@, JsonView::Bool(true)).insert(
                    "daemon_backed_hard_reservation_effects"@,
                    number_doc(1),
                ),
            ),
        ),
    )
}

/// The proof that a provider's capacity was asked for twice: what stands under each of its names.
pub proof fn law_double_reservation_says_each_part_by_its_name(
    provider: Seq<char>,
    reservation: ReservationView,
    active_session: Seq<char>,
    refused_session: Seq<char>,
    refused_rfq: Seq<char>,
)
    ensures
        ({
            let document = double_reservation_doc(
                provider,
                reservation,
                active_session,
                refused_session,
                refused_rfq,
            );
            &&& member_text(document, "proof_class"@) == Some("live_double_reservation"@)
            &&& member_text(document, "provider_pubkey"@) == Some(provider)
            &&& member_text(document, "capacity_bucket_id"@) == Some(reservation.capacity_bucket_id)
            &&& member_text(document, "daemon_reservation_id"@) == Some(reservation.reservation_id)
            &&& member(document, "active"@) == Some(
                JsonView::Object(
                    no_members()
                        .insert("session_id"@, text_doc(active_session))
                        .insert("rfq_id"@, text_doc(reservation.rfq_id))
                        .insert("quote_id"@, text_doc(reservation.quote_id))
                        .insert("reservation_id"@, text_doc(reservation.reservation_id)),
                ),
            )
            &&& member(document, "refused"@) == Some(
                JsonView::Object(
                    no_members()
                        .insert("session_id"@, text_doc(refused_session))
                        .insert("rfq_id"@, text_doc(refused_rfq))
                        .insert("expected_code"@, text_doc("swp_reservation_overallocated"@))
                        .insert("provider_wire_refusal"@, JsonView::Null)
                        .insert("surface"@, text_doc("lab_process_audit_required"@)),
                ),
            )
            &&& member(document, "checks"@) == Some(
                JsonView::Object(
                    no_members()
                        .insert("same_provider"@, JsonView::Bool(true))
                        .insert("same_capacity_bucket"@, JsonView::Bool(true))
                        .insert("overlapping_signed_sessions"@, JsonView::Bool(true))
                        .insert("daemon_backed_hard_reservation_effects"@, number_doc(1)),
                ),
            )
        }),
{
    reveal_strlit("proof_class");
    reveal_strlit("provider_pubkey");
    reveal_strlit("capacity_bucket_id");
    reveal_strlit("daemon_reservation_id");
    reveal_strlit("active");
    reveal_strlit("refused");
    reveal_strlit("checks");
    assert("proof_class"@.len() == 11);
    assert("provider_pubkey"@.len() == 15);
    assert("capacity_bucket_id"@.len() == 18);
    assert("daemon_reservation_id"@.len() == 21);
    assert("active"@.len() == 6);
    assert("refused"@.len() == 7);
    assert("checks"@.len() == 6);
    assert("active"@[0] == 'a');
    assert("checks"@[0] == 'c');
}

/// The proof that a provider's capacity was asked for twice.
pub fn double_reservation(
    provider_pubkey: &str,
    reservation: &Reservation,
    active_session_id: &str,
    refused_session_id: &str,
    refused_rfq_id: &str,
) -> (document: Json)
    ensures
        document@ == double_reservation_doc(
            provider_pubkey@,
            reservation@,
            active_session_id@,
            refused_session_id@,
            refused_rfq_id@,
        ),
{
    Json::object(
        JsonObject::new().with_text("proof_class", "live_double_reservation").with(
            "provider_pubkey",
            Json::text(provider_pubkey),
        ).with("capacity_bucket_id", Json::text(reservation.capacity_bucket_id.as_str())).with(
            "daemon_reservation_id",
            Json::text(reservation.reservation_id.as_str()),
        ).with(
            "active",
            Json::object(
                JsonObject::new().with("session_id", Json::text(active_session_id)).with(
                    "rfq_id",
                    Json::text(reservation.rfq_id.as_str()),
                ).with("quote_id", Json::text(reservation.quote_id.as_str())).with(
                    "reservation_id",
                    Json::text(reservation.reservation_id.as_str()),
                ),
            ),
        ).with(
            "refused",
            Json::object(
                JsonObject::new().with("session_id", Json::text(refused_session_id)).with(
                    "rfq_id",
                    Json::text(refused_rfq_id),
                ).with_text("expected_code", "swp_reservation_overallocated").with(
                    "provider_wire_refusal",
                    Json::null(),
                ).with_text("surface", "lab_process_audit_required"),
            ),
        ).with(
            "checks",
            Json::object(
                JsonObject::new().with_bool("same_provider", true).with_bool(
                    "same_capacity_bucket",
                    true,
                ).with_bool("overlapping_signed_sessions", true).with_number(
                    "daemon_backed_hard_reservation_effects",
                    1,
                ),
            ),
        ),
    )
}

/// What a swap between two providers reports: the candidates by rank, the selected one first, the one
/// that the selection names, and what became of each.
pub proof fn law_topology_reports_the_selected_first(run: TopologyRunView)
    requires
        run.first is Some,
        run.second is Some,
        run.phase == TopologyPhase::Finished,
    ensures
        ({
            let selected = if run.selected_first {
                run.first->0
            } else {
                run.second->0
            };
            let unselected = if run.selected_first {
                run.second->0
            } else {
                run.first->0
            };
            let report = topology_result(run);
            &&& report is Some
            &&& items_of(member(report->0, "candidates"@)) == Some(
                seq![ranked_doc(selected, 1), ranked_doc(unselected, 2)],
            )
            &&& text_of(step(member(report->0, "selection"@), "selected_provider_pubkey"@)) == Some(
                selected.provider_pubkey@,
            )
            &&& text_of(step(member(report->0, "selection"@), "selected_quote_id"@)) == Some(
                selected.quote_id@,
            )
            &&& member_text(report->0, "wallet_pubkey"@) == Some(run.wallet_pubkey)
            &&& member(report->0, "unselected"@) == Some(run.cancellation)
            &&& member(report->0, "selected"@) == Some(run.selected_journey)
        }),
{
    reveal_strlit("schema");
    reveal_strlit("wallet_pubkey");
    reveal_strlit("candidates");
    reveal_strlit("selection");
    reveal_strlit("unselected");
    reveal_strlit("selected");
    reveal_strlit("policy");
    reveal_strlit("selected_provider_pubkey");
    reveal_strlit("selected_quote_id");
    assert("schema"@.len() == 6);
    assert("wallet_pubkey"@.len() == 13);
    assert("candidates"@.len() == 10);
    assert("selection"@.len() == 9);
    assert("unselected"@.len() == 10);
    assert("selected"@.len() == 8);
    assert("policy"@.len() == 6);
    assert("selected_provider_pubkey"@.len() == 24);
    assert("selected_quote_id"@.len() == 17);
    assert("schema"@[0] == 's');
    assert("policy"@[0] == 'p');
    assert("candidates"@[0] == 'c');
    assert("unselected"@[0] == 'u');
}

/// Candidates are compared only like with like: whatever can be compared changes the same assets in the
/// same amount by the same rule, and that is the same both ways and along a chain.
pub proof fn law_comparable_candidates_are_alike(
    first: TopologyCandidate,
    second: TopologyCandidate,
    third: TopologyCandidate,
)
    ensures
        are_comparable(first, first),
        are_comparable(first, second) <==> are_comparable(second, first),
        are_comparable(first, second) && are_comparable(second, third) ==> are_comparable(
            first,
            third,
        ),
        are_comparable(first, second) ==> {
            &&& first.swap_type@ == second.swap_type@
            &&& first.input_asset_id@ == second.input_asset_id@
            &&& first.output_asset_id@ == second.output_asset_id@
            &&& first.input_amount@ == second.input_amount@
            &&& first.amount_equation@ == second.amount_equation@
            &&& first.rounding@ == second.rounding@
        },
{
}

/// A close releases one reservation, whole: two amounts that it releases are the same, and nothing was
/// spent outside.
pub proof fn law_close_releases_one_amount(
    profile: Map<Seq<char>, JsonView>,
    output_amount: Seq<char>,
    other: Seq<char>,
)
    requires
        releases(profile, output_amount),
    ensures
        releases(profile, other) <==> other == output_amount,
        counted(profile, "external_spend_effects"@) == Some(0u64),
{
}

} // verus!
