//! Signed records of a session and what is read from them.

use vstd::prelude::*;
use vstd::string::*;
use crate::json::{Json, JsonObject, JsonView, member, members_of};
use crate::control::said;
use crate::text::{join, join3, maybe_str, same_text};
use crate::wire::{parse_json_text, parsed_text};

verus! {

/// A tag of a signed record: its name and its values.
pub struct EventTag {
    pub name: String,
    pub values: Vec<String>,
}

/// A signed record.
pub struct Event {
    pub id: String,
    pub pubkey: String,
    pub created_at: u64,
    pub kind: u16,
    pub tags: Vec<EventTag>,
    pub content: String,
    pub sig: String,
}

/// The kinds under which the records of a session are signed.
#[derive(Clone, Copy, Debug, PartialEq, Eq, Structural)]
pub struct RecordKinds {
    pub rfq: u16,
    pub quote: u16,
    pub order: u16,
    pub contract: u16,
    pub status: u16,
    pub cancel: u16,
    pub close: u16,
}

/// The first values of the tags of a name, in their order.
pub open spec fn tag_values(tags: Seq<EventTag>, name: Seq<char>) -> Seq<Seq<char>>
    decreases tags.len(),
{
    if tags.len() == 0 {
        Seq::empty()
    } else {
        let front = tag_values(tags.drop_last(), name);
        if tags.last().name@ == name && tags.last().values@.len() > 0 {
            front.push(tags.last().values@[0]@)
        } else {
            front
        }
    }
}

/// The characters of each text.
pub open spec fn texts(values: Seq<&str>) -> Seq<Seq<char>> {
    values.map_values(|value: &str| value@)
}

impl Event {
    /// The first values of the tags of a name, in their order.
    pub fn tag_values(&self, name: &str) -> (values: Vec<&str>)
        ensures
            texts(values@) == tag_values(self.tags@, name@),
    {
        let mut values: Vec<&str> = Vec::new();
        let mut i: usize = 0;
        assert(texts(values@) =~= Seq::<Seq<char>>::empty());
        assert(self.tags@.subrange(0, 0) =~= Seq::<EventTag>::empty());
        while i < self.tags.len()
            invariant
                i <= self.tags@.len(),
                texts(values@) == tag_values(self.tags@.subrange(0, i as int), name@),
            decreases self.tags@.len() - i,
        {
            proof {
                let next = self.tags@.subrange(0, i + 1);
                assert(next.drop_last() =~= self.tags@.subrange(0, i as int));
                assert(next.last() == self.tags@[i as int]);
            }
            let ghost before = values@;
            if same_text(self.tags[i].name.as_str(), name) && self.tags[i].values.len() > 0 {
                values.push(self.tags[i].values[0].as_str());
                assert(texts(values@) =~= texts(before).push(self.tags@[i as int].values@[0]@));
            }
            i = i + 1;
        }
        assert(self.tags@.subrange(0, i as int) =~= self.tags@);
        values
    }
}

/// What the only value of a tag reads as.
pub open spec fn exact_tag_reading(tags: Seq<EventTag>, name: Seq<char>) -> Result<
    Seq<char>,
    Seq<char>,
> {
    let values = tag_values(tags, name);
    if values.len() == 1 {
        Ok(values[0])
    } else {
        Err("event does not have exactly one "@ + name + " tag"@)
    }
}

/// What the only value of a tag reads as: it can be had exactly where every part that it rests on
/// can, and each part of it is the one that its name says.
pub proof fn law_exact_tag_is_read_from_its_parts(tags: Seq<EventTag>, name: Seq<char>)
    ensures
        ({
            let read = exact_tag_reading(tags, name);
            let values = tag_values(tags, name);
            let given = read->Ok_0;
            &&& read is Ok <==> {
                &&& values.len() == 1
            }
            &&& read is Ok ==> {
                &&& given == values[0]
            }
        }),
{
}

/// The characters of a borrowed text that a fallible call returned, or its message.
pub open spec fn told_str(outcome: Result<&str, String>) -> Result<Seq<char>, Seq<char>> {
    match outcome {
        Ok(text) => Ok(text@),
        Err(message) => Err(message@),
    }
}

/// The value of a tag that a record has exactly once.
pub fn exact_tag_value<'a>(event: &'a Event, name: &str) -> (value: Result<&'a str, String>)
    ensures
        told_str(value) == exact_tag_reading(event.tags@, name@),
{
    let values: Vec<&str> = event.tag_values(name);
    if values.len() != 1 {
        return Err(join3("event does not have exactly one ", name, " tag"));
    }
    assert(texts(values@)[0] == values@[0]@);
    Ok(values[0])
}

/// Whether the tags of a name have exactly one value and it is this one.
pub fn has_only_tag(event: &Event, name: &str, expected: &str) -> (only: bool)
    ensures
        only == (tag_values(event.tags@, name@) == seq![expected@]),
{
    let values: Vec<&str> = event.tag_values(name);
    assert(texts(values@).len() == values@.len());
    if values.len() != 1 {
        assert(seq![expected@].len() == 1);
        return false;
    }
    let only: bool = same_text(values[0], expected);
    proof {
        assert(texts(values@)[0] == values@[0]@);
        if only {
            assert(texts(values@) =~= seq![expected@]);
        } else {
            assert(texts(values@)[0] != seq![expected@][0]);
        }
    }
    only
}

/// Whether some tag of a name has this value.
pub fn has_tag(event: &Event, name: &str, expected: &str) -> (found: bool)
    ensures
        found == tag_values(event.tags@, name@).contains(expected@),
{
    let values: Vec<&str> = event.tag_values(name);
    let mut i: usize = 0;
    while i < values.len()
        invariant
            i <= values@.len(),
            texts(values@) == tag_values(event.tags@, name@),
            forall|j: int| 0 <= j < i ==> #[trigger] texts(values@)[j] != expected@,
        decreases values@.len() - i,
    {
        if same_text(values[i], expected) {
            assert(texts(values@)[i as int] == expected@);
            return true;
        }
        i = i + 1;
    }
    false
}

/// What the profile of a record reads as.
pub open spec fn profile_reading(content: Seq<char>) -> Result<Map<Seq<char>, JsonView>, Seq<char>> {
    match parsed_text(content) {
        Err(message) => Err("record content is invalid JSON: "@ + message),
        Ok(document) => match members_of(member(document, "mkt_swp"@)) {
            None => Err("record has no MKT-SWP profile"@),
            Some(profile) => Ok(profile),
        },
    }
}

/// What the profile of a record reads as: it can be had exactly where every part that it rests on
/// can, and each part of it is the one that its name says.
pub proof fn law_profile_is_read_from_its_parts(content: Seq<char>)
    ensures
        ({
            let read = profile_reading(content);
            let document = parsed_text(content)->Ok_0;
            let given = read->Ok_0;
            &&& read is Ok <==> {
                &&& parsed_text(content) is Ok
                &&& members_of(member(document, "mkt_swp"@)) is Some
            }
            &&& read is Ok ==> {
                &&& given == members_of(member(document, "mkt_swp"@))->0
            }
        }),
{
}

/// The members of an object that a fallible call returned, or its message.
pub open spec fn told_object(outcome: Result<JsonObject, String>) -> Result<
    Map<Seq<char>, JsonView>,
    Seq<char>,
> {
    match outcome {
        Ok(object) => Ok(object@),
        Err(message) => Err(message@),
    }
}

/// The profile that the document of a record holds.
pub fn profile_of(document: &Json) -> (profile: Result<JsonObject, String>)
    ensures
        told_object(profile) == (match members_of(member(document@, "mkt_swp"@)) {
            None => Err("record has no MKT-SWP profile"@),
            Some(profile) => Ok(profile),
        }),
{
    match document.get("mkt_swp") {
        Some(value) => match value.as_object() {
            Some(profile) => Ok(profile.copy()),
            None => Err("record has no MKT-SWP profile".to_owned()),
        },
        None => Err("record has no MKT-SWP profile".to_owned()),
    }
}

/// The profile that the content of a record holds.
pub fn record_profile(event: &Event) -> (profile: Result<JsonObject, String>)
    ensures
        told_object(profile) == profile_reading(event.content@),
{
    match parse_json_text(event.content.as_str()) {
        Err(message) => Err(join("record content is invalid JSON: ", message.as_str())),
        Ok(document) => profile_of(&document),
    }
}

/// The state that the content of a status record names.
pub open spec fn state_of(content: Seq<char>) -> Option<Seq<char>> {
    match profile_reading(content) {
        Ok(profile) => said(profile, "swp_state"@),
        Err(_) => None,
    }
}

/// Whether the content of a record names this state.
pub fn record_is_in_state(event: &Event, state: &str) -> (is: bool)
    ensures
        is == (state_of(event.content@) == Some(state@)),
{
    match record_profile(event) {
        Ok(profile) => profile.says("swp_state", state),
        Err(_) => false,
    }
}

/// The records of a kind, by an author where one is given.
pub open spec fn of_kind(kind: u16, author: Option<Seq<char>>) -> spec_fn(Event) -> bool {
    |event: Event| event.kind == kind && (author is None || event.pubkey@ == author->0)
}

/// The status records of an author in a state.
pub open spec fn in_state(kind: u16, author: Seq<char>, state: Seq<char>) -> spec_fn(Event) -> bool {
    |event: Event|
        event.kind == kind && event.pubkey@ == author && state_of(event.content@) == Some(state)
}

/// Reading one item more appends it to what is kept, or leaves what is kept as it is.
pub proof fn lemma_filter_step<T>(items: Seq<T>, keep: spec_fn(T) -> bool, i: int)
    requires
        0 <= i < items.len(),
    ensures
        items.subrange(0, i + 1).filter(keep) == (if keep(items[i]) {
            items.subrange(0, i).filter(keep).push(items[i])
        } else {
            items.subrange(0, i).filter(keep)
        }),
{
    reveal(Seq::filter);
    let next = items.subrange(0, i + 1);
    assert(next.drop_last() =~= items.subrange(0, i));
    assert(next.last() == items[i]);
}

/// Nothing is kept of nothing.
pub proof fn lemma_filter_empty<T>(items: Seq<T>, keep: spec_fn(T) -> bool)
    ensures
        items.subrange(0, 0).filter(keep).len() == 0,
{
    reveal(Seq::filter);
    assert(items.subrange(0, 0).len() == 0);
}

/// The record of a kind, by an author where one is given, as long as there is exactly one.
pub fn only_record<'a>(records: &'a Vec<Event>, kind: u16, author: Option<&str>) -> (found: Option<
    &'a Event,
>)
    ensures
        match found {
            Some(event) => records@.filter(of_kind(kind, maybe_str(author))) == seq![*event],
            None => records@.filter(of_kind(kind, maybe_str(author))).len() != 1,
        },
{
    let ghost keep = of_kind(kind, maybe_str(author));
    let mut found: Option<&'a Event> = None;
    let mut many: bool = false;
    let mut i: usize = 0;
    proof {
        lemma_filter_empty(records@, keep);
    }
    while i < records.len()
        invariant
            i <= records@.len(),
            keep == of_kind(kind, maybe_str(author)),
            many ==> found is Some && records@.subrange(0, i as int).filter(keep).len() > 1,
            !many ==> match found {
                Some(event) => records@.subrange(0, i as int).filter(keep) == seq![*event],
                None => records@.subrange(0, i as int).filter(keep).len() == 0,
            },
        decreases records@.len() - i,
    {
        proof {
            lemma_filter_step(records@, keep, i as int);
        }
        let matches: bool = records[i].kind == kind && match author {
            Some(author) => same_text(records[i].pubkey.as_str(), author),
            None => true,
        };
        if matches {
            if found.is_some() {
                many = true;
            } else {
                found = Some(&records[i]);
                assert(records@.subrange(0, i + 1).filter(keep) =~= seq![records@[i as int]]);
            }
        }
        i = i + 1;
    }
    assert(records@.subrange(0, i as int) =~= records@);
    if many {
        None
    } else {
        found
    }
}

/// The number of status records of an author in a state.
pub fn count_in_state(records: &Vec<Event>, kind: u16, author: &str, state: &str) -> (count: usize)
    ensures
        count == records@.filter(in_state(kind, author@, state@)).len(),
{
    let ghost keep = in_state(kind, author@, state@);
    let mut count: usize = 0;
    let mut i: usize = 0;
    proof {
        lemma_filter_empty(records@, keep);
    }
    while i < records.len()
        invariant
            i <= records@.len(),
            keep == in_state(kind, author@, state@),
            count <= i,
            count == records@.subrange(0, i as int).filter(keep).len(),
        decreases records@.len() - i,
    {
        proof {
            lemma_filter_step(records@, keep, i as int);
        }
        if records[i].kind == kind && same_text(records[i].pubkey.as_str(), author)
            && record_is_in_state(&records[i], state) {
            count = count + 1;
        }
        i = i + 1;
    }
    assert(records@.subrange(0, i as int) =~= records@);
    count
}

/// The status record of an author in a state, as long as there is exactly one.
pub fn exactly_one_status_by_author_and_state<'a>(
    records: &'a Vec<Event>,
    kinds: RecordKinds,
    author: &str,
    state: &str,
) -> (found: Result<&'a Event, String>)
    ensures
        match found {
            Ok(event) => records@.filter(in_state(kinds.status, author@, state@)) == seq![*event],
            Err(message) => {
                &&& records@.filter(in_state(kinds.status, author@, state@)).len() != 1
                &&& message@ == "requester "@ + state@
                    + " requires one exact provider prerequisite Status"@
            },
        },
{
    let ghost keep = in_state(kinds.status, author@, state@);
    let mut found: Option<&'a Event> = None;
    let mut many: bool = false;
    let mut i: usize = 0;
    proof {
        lemma_filter_empty(records@, keep);
    }
    while i < records.len()
        invariant
            i <= records@.len(),
            keep == in_state(kinds.status, author@, state@),
            many ==> found is Some && records@.subrange(0, i as int).filter(keep).len() > 1,
            !many ==> match found {
                Some(event) => records@.subrange(0, i as int).filter(keep) == seq![*event],
                None => records@.subrange(0, i as int).filter(keep).len() == 0,
            },
        decreases records@.len() - i,
    {
        proof {
            lemma_filter_step(records@, keep, i as int);
        }
        if records[i].kind == kinds.status && same_text(records[i].pubkey.as_str(), author)
            && record_is_in_state(&records[i], state) {
            if found.is_some() {
                many = true;
            } else {
                found = Some(&records[i]);
                assert(records@.subrange(0, i + 1).filter(keep) =~= seq![records@[i as int]]);
            }
        }
        i = i + 1;
    }
    assert(records@.subrange(0, i as int) =~= records@);
    match found {
        Some(event) if !many => Ok(event),
        _ => Err(join3("requester ", state, " requires one exact provider prerequisite Status")),
    }
}

} // verus!
