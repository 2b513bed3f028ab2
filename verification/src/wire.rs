//! The bridge between JSON documents and their text.
//!
//! Reading and writing JSON text is `serde_json`'s work. Its values are taken apart and put
//! together here, one level at a time.

use vstd::prelude::*;
use vstd::utf8::encode_utf8;
use crate::json::{
    Json, JsonNumber, JsonObject, JsonView, NumberView, items_view, lemma_items_view, lemma_kinds,
};
use crate::text::same_text;

verus! {

/// `serde_json::Value`, a parsed document.
#[verifier::external_type_specification]
#[verifier::external_body]
pub struct ExValue(serde_json::Value);

/// `serde_json::Number`, a number of a parsed document.
#[verifier::external_type_specification]
#[verifier::external_body]
pub struct ExNumber(serde_json::Number);

/// The document that a `serde_json::Value` holds.
pub uninterp spec fn value_content(value: serde_json::Value) -> JsonView;

/// The number that a `serde_json::Number` holds.
pub uninterp spec fn number_content(number: serde_json::Number) -> NumberView;

/// What `serde_json::from_slice` makes of bytes: a document, or the message of its error.
pub uninterp spec fn parsed_bytes(bytes: Seq<u8>) -> Result<JsonView, Seq<char>>;

/// What `serde_json::from_str` makes of text: a document, or the message of its error.
pub uninterp spec fn parsed_text(text: Seq<char>) -> Result<JsonView, Seq<char>>;

/// The compact text that `serde_json` writes for a document.
pub uninterp spec fn rendered(document: JsonView) -> Seq<char>;

/// The indented bytes that `serde_json::to_vec_pretty` writes for a document.
pub uninterp spec fn rendered_pretty(document: JsonView) -> Seq<u8>;

/// Where `serde_json`'s stream deserializer stands after the first document of a text, counted in
/// bytes; `None` where the text does not start with one.
pub uninterp spec fn first_document_end(text: Seq<char>) -> Option<usize>;

/// One level of a `serde_json::Value`.
pub enum ValueParts {
    Null,
    Bool(bool),
    Number(serde_json::Number),
    Text(String),
    Array(Vec<serde_json::Value>),
    Object(Vec<(String, serde_json::Value)>),
}

/// The documents of a sequence of values.
pub open spec fn contents(values: Seq<serde_json::Value>) -> Seq<JsonView> {
    values.map_values(|value: serde_json::Value| value_content(value))
}

/// Whether a map is what a sequence of members with distinct names holds.
pub open spec fn holds_members(
    members: Map<Seq<char>, JsonView>,
    entries: Seq<(String, serde_json::Value)>,
) -> bool {
    &&& forall|i: int|
        0 <= i < entries.len() ==> members.dom().contains(#[trigger] entries[i].0@)
            && members[entries[i].0@] == value_content(entries[i].1)
    &&& forall|name: Seq<char>| #[trigger]
        members.dom().contains(name) ==> exists|i: int|
            0 <= i < entries.len() && #[trigger] entries[i].0@ == name
    &&& forall|i: int, j: int|
        0 <= i < j < entries.len() ==> #[trigger] entries[i].0@ != #[trigger] entries[j].0@
}

/// Whether the parts are one level of a document.
pub open spec fn is_level(document: JsonView, parts: ValueParts) -> bool {
    match parts {
        ValueParts::Null => document == JsonView::Null,
        ValueParts::Bool(flag) => document == JsonView::Bool(flag),
        ValueParts::Number(number) => document == JsonView::Number(number_content(number)),
        ValueParts::Text(text) => document == JsonView::Text(text@),
        ValueParts::Array(items) => document == JsonView::Array(contents(items@)),
        ValueParts::Object(entries) => document matches JsonView::Object(members)
            && holds_members(members, entries@),
    }
}

/// Takes a `serde_json::Value` apart by its variants, each of which holds what the part of the same
/// name holds. An object comes out as the pairs of name and value of its map, each name once.
#[verifier::external_body]
fn value_parts(value: serde_json::Value) -> (parts: ValueParts)
    ensures
        is_level(value_content(value), parts),
{
    match value {
        serde_json::Value::Null => ValueParts::Null,
        serde_json::Value::Bool(flag) => ValueParts::Bool(flag),
        serde_json::Value::Number(number) => ValueParts::Number(number),
        serde_json::Value::String(text) => ValueParts::Text(text),
        serde_json::Value::Array(items) => ValueParts::Array(items),
        serde_json::Value::Object(members) => ValueParts::Object(members.into_iter().collect()),
    }
}

/// Puts a `serde_json::Value` together from one level, variant by variant. The names of an object
/// are distinct, so that each member stays.
#[verifier::external_body]
fn value_of_parts(parts: ValueParts) -> (value: serde_json::Value)
    requires
        parts matches ValueParts::Object(entries) ==> (forall|i: int, j: int|
            0 <= i < j < entries@.len() ==> #[trigger] entries@[i].0@ != #[trigger] entries@[j].0@),
    ensures
        is_level(value_content(value), parts),
{
    match parts {
        ValueParts::Null => serde_json::Value::Null,
        ValueParts::Bool(flag) => serde_json::Value::Bool(flag),
        ValueParts::Number(number) => serde_json::Value::Number(number),
        ValueParts::Text(text) => serde_json::Value::String(text),
        ValueParts::Array(items) => serde_json::Value::Array(items),
        ValueParts::Object(entries) => serde_json::Value::Object(entries.into_iter().collect()),
    }
}

/// `serde_json::Number::as_u64`: the number where it is a non-negative integer.
pub assume_specification[ serde_json::Number::as_u64 ](number: &serde_json::Number) -> (found: Option<
    u64,
>)
    ensures
        found == (match number_content(*number) {
            NumberView::Unsigned(value) => Some(value),
            _ => None,
        }),
;

/// `serde_json::Number::as_i64`: the number where it is an integer that fits.
pub assume_specification[ serde_json::Number::as_i64 ](number: &serde_json::Number) -> (found: Option<
    i64,
>)
    ensures
        number_content(*number) matches NumberView::Negative(value) ==> found == Some(value),
        number_content(*number) is Decimal ==> found is None,
;

/// The text of a `serde_json::Number` by its `Display`: for a number that is no integer, the text
/// that stands for it.
#[verifier::external_body]
fn number_text(number: &serde_json::Number) -> (text: String)
    ensures
        number_content(*number) matches NumberView::Decimal(decimal) ==> text@ == decimal,
{
    number.to_string()
}

/// `serde_json::Number::from` on `u64`: the number is that integer.
#[verifier::external_body]
fn unsigned_number(value: u64) -> (number: serde_json::Number)
    ensures
        number_content(number) == NumberView::Unsigned(value),
{
    serde_json::Number::from(value)
}

/// `serde_json::Number::from` on `i64`: for a negative integer, the number is that integer.
#[verifier::external_body]
fn negative_number(value: i64) -> (number: serde_json::Number)
    requires
        value < 0,
    ensures
        number_content(number) == NumberView::Negative(value),
{
    serde_json::Number::from(value)
}

/// `serde_json::from_slice` into a `serde_json::Value`: the document of the bytes, or the message
/// of its error.
#[verifier::external_body]
fn value_from_bytes(bytes: &[u8]) -> (parsed: Result<serde_json::Value, String>)
    ensures
        match parsed {
            Ok(value) => parsed_bytes(bytes@) == Ok::<JsonView, Seq<char>>(value_content(value)),
            Err(message) => parsed_bytes(bytes@) == Err::<JsonView, Seq<char>>(message@),
        },
{
    serde_json::from_slice(bytes).map_err(|error| error.to_string())
}

/// `serde_json::from_str` into a `serde_json::Value`: the document of the text, or the message of
/// its error.
#[verifier::external_body]
fn value_from_text(text: &str) -> (parsed: Result<serde_json::Value, String>)
    ensures
        match parsed {
            Ok(value) => parsed_text(text@) == Ok::<JsonView, Seq<char>>(value_content(value)),
            Err(message) => parsed_text(text@) == Err::<JsonView, Seq<char>>(message@),
        },
{
    serde_json::from_str(text).map_err(|error| error.to_string())
}

/// The `Display` of a `serde_json::Value`: its compact text.
#[verifier::external_body]
fn value_text(value: &serde_json::Value) -> (text: String)
    ensures
        text@ == rendered(value_content(*value)),
{
    value.to_string()
}

/// `serde_json::to_vec` on a `serde_json::Value`: the UTF-8 bytes of its compact text. A value has
/// text for names and writes to memory, so the call does not fail.
#[verifier::external_body]
fn value_bytes(value: &serde_json::Value) -> (written: Result<Vec<u8>, String>)
    ensures
        written is Ok,
        written->Ok_0@ == encode_utf8(rendered(value_content(*value))),
{
    serde_json::to_vec(value).map_err(|error| error.to_string())
}

/// `serde_json::to_vec_pretty` on a `serde_json::Value`: its indented bytes. As with the compact
/// form, the call does not fail.
#[verifier::external_body]
fn value_pretty_bytes(value: &serde_json::Value) -> (written: Result<Vec<u8>, String>)
    ensures
        written is Ok,
        written->Ok_0@ == rendered_pretty(value_content(*value)),
{
    serde_json::to_vec_pretty(value).map_err(|error| error.to_string())
}

/// One step of `serde_json`'s stream deserializer over a text: how many bytes it has read once it
/// has the first document, `None` where it found none or an error.
#[verifier::external_body]
pub(crate) fn document_end(text: &str) -> (end: Option<usize>)
    ensures
        end == first_document_end(text@),
{
    let mut documents = serde_json::Deserializer::from_str(text).into_iter::<serde_json::Value>();
    documents.next()?.ok()?;
    Some(documents.byte_offset())
}

/// A number of a parsed document as a plain value.
fn number_of(number: serde_json::Number) -> (plain: JsonNumber)
    ensures
        plain@ == number_content(number),
{
    match number.as_u64() {
        Some(value) => JsonNumber::Unsigned(value),
        None => match number.as_i64() {
            Some(value) => JsonNumber::Negative(value),
            None => JsonNumber::Decimal(number_text(&number)),
        },
    }
}

/// A parsed document as a plain value.
fn json_of(value: serde_json::Value) -> (document: Json)
    ensures
        document@ == value_content(value),
    decreases value_content(value),
{
    let ghost whole = value_content(value);
    match value_parts(value) {
        ValueParts::Null => Json::null(),
        ValueParts::Bool(flag) => Json::truth(flag),
        ValueParts::Number(number) => Json::from_number(number_of(number)),
        ValueParts::Text(text) => Json::text(text.as_str()),
        ValueParts::Array(items) => {
            let ghost all = items@;
            let mut rest: Vec<serde_json::Value> = items;
            let mut documents: Vec<Json> = Vec::new();
            while rest.len() > 0
                invariant
                    whole == value_content(value),
                    whole == JsonView::Array(contents(all)),
                    rest@ == all.subrange(0, rest@.len() as int),
                    rest@.len() <= all.len(),
                    documents@.len() == all.len() - rest@.len(),
                    forall|j: int|
                        0 <= j < documents@.len() ==> (#[trigger] documents@[j])@ == value_content(
                            all[all.len() - 1 - j],
                        ),
                decreases rest@.len(),
            {
                let ghost last = rest@.len() - 1;
                let item = rest.pop();
                if let Some(item) = item {
                    assert(item == all[last]);
                    assert(contents(all)[last] == value_content(item));
                    assert(decreases_to!(whole => whole->Array_0));
                    assert(decreases_to!(whole->Array_0 => whole->Array_0[last]));
                    let document: Json = json_of(item);
                    documents.push(document);
                }
            }
            let documents: Vec<Json> = reversed(documents);
            proof {
                lemma_items_view(documents@);
                assert(items_view(documents@) =~= contents(all));
            }
            Json::array(documents)
        },
        ValueParts::Object(entries) => {
            let ghost all = entries@;
            let ghost members = whole->Object_0;
            let mut rest: Vec<(String, serde_json::Value)> = entries;
            let mut object: JsonObject = JsonObject::new();
            while rest.len() > 0
                invariant
                    whole == value_content(value),
                    whole == JsonView::Object(members),
                    holds_members(members, all),
                    rest@ == all.subrange(0, rest@.len() as int),
                    rest@.len() <= all.len(),
                    forall|j: int|
                        rest@.len() <= j < all.len() ==> object@.dom().contains(
                            #[trigger] all[j].0@,
                        ),
                    forall|name: Seq<char>| #[trigger]
                        object@.dom().contains(name) ==> members.dom().contains(name)
                            && object@[name] == members[name],
                decreases rest@.len(),
            {
                let ghost last = rest@.len() - 1;
                let entry = rest.pop();
                if let Some((name, item)) = entry {
                    assert(all[last] == (name, item));
                    assert(members.dom().contains(all[last].0@));
                    assert(decreases_to!(whole => whole->Object_0[name@]));
                    let document: Json = json_of(item);
                    object.insert(name.as_str(), document);
                }
            }
            proof {
                assert(object@.dom() =~= members.dom());
                assert(object@ =~= members);
            }
            Json::object(object)
        },
    }
}

fn reversed(items: Vec<Json>) -> (turned: Vec<Json>)
    ensures
        turned@ == items@.reverse(),
{
    let ghost all = items@;
    let mut rest: Vec<Json> = items;
    let mut turned: Vec<Json> = Vec::new();
    while rest.len() > 0
        invariant
            rest@ == all.subrange(0, rest@.len() as int),
            rest@.len() <= all.len(),
            turned@.len() == all.len() - rest@.len(),
            forall|j: int|
                0 <= j < turned@.len() ==> #[trigger] turned@[j] == all[all.len() - 1 - j],
        decreases rest@.len(),
    {
        if let Some(item) = rest.pop() {
            turned.push(item);
        }
    }
    assert(turned@ =~= items@.reverse());
    turned
}

/// Whether a number stands somewhere in a document that is no integer and whose text is not read
/// as that number.
pub open spec fn holds_unreadable(document: JsonView) -> bool
    decreases document,
{
    match document {
        JsonView::Number(NumberView::Decimal(text)) => parsed_text(text) != Ok::<
            JsonView,
            Seq<char>,
        >(document),
        JsonView::Array(items) => exists|i: int|
            0 <= i < items.len() && holds_unreadable(#[trigger] items[i]),
        JsonView::Object(members) => exists|name: Seq<char>| #[trigger]
            members.dom().contains(name) && holds_unreadable(members[name]),
        _ => false,
    }
}

/// Whether no integer of a document that should be negative is something else.
pub open spec fn signs_agree(document: JsonView) -> bool
    decreases document,
{
    match document {
        JsonView::Number(NumberView::Negative(value)) => value < 0,
        JsonView::Array(items) => forall|i: int|
            0 <= i < items.len() ==> signs_agree(#[trigger] items[i]),
        JsonView::Object(members) => forall|name: Seq<char>| #[trigger]
            members.dom().contains(name) ==> signs_agree(members[name]),
        _ => true,
    }
}

proof fn lemma_unreadable_member(members: Map<Seq<char>, JsonView>, name: Seq<char>)
    requires
        members.dom().contains(name),
    ensures
        holds_unreadable(members[name]) ==> holds_unreadable(JsonView::Object(members)),
        !signs_agree(members[name]) ==> !signs_agree(JsonView::Object(members)),
{
    let document = JsonView::Object(members);
    assert(document->Object_0 == members);
    assert(holds_unreadable(document) == exists|name: Seq<char>| #[trigger]
        members.dom().contains(name) && holds_unreadable(members[name]));
    assert(signs_agree(document) == forall|name: Seq<char>| #[trigger]
        members.dom().contains(name) ==> signs_agree(members[name]));
}

proof fn lemma_unreadable_item(items: Seq<JsonView>, place: int)
    requires
        0 <= place < items.len(),
    ensures
        holds_unreadable(items[place]) ==> holds_unreadable(JsonView::Array(items)),
        !signs_agree(items[place]) ==> !signs_agree(JsonView::Array(items)),
{
    let document = JsonView::Array(items);
    assert(document->Array_0 == items);
    assert(holds_unreadable(document) == exists|i: int|
        0 <= i < items.len() && holds_unreadable(#[trigger] items[i]));
    assert(signs_agree(document) == forall|i: int|
        0 <= i < items.len() ==> signs_agree(#[trigger] items[i]));
}

/// The number that is no integer and has this text; `None` where the text is not read as it.
fn decimal_number(text: &str) -> (number: Option<serde_json::Number>)
    ensures
        match number {
            Some(number) => number_content(number) == NumberView::Decimal(text@),
            None => holds_unreadable(JsonView::Number(NumberView::Decimal(text@))),
        },
{
    let value = match value_from_text(text) {
        Ok(value) => value,
        Err(_) => {
            return None;
        },
    };
    match value_parts(value) {
        ValueParts::Number(number) => {
            if number.as_u64().is_none() && number.as_i64().is_none() && same_text(
                number_text(&number).as_str(),
                text,
            ) {
                Some(number)
            } else {
                None
            }
        },
        _ => None,
    }
}

/// A document as a `serde_json::Value`; `None` where it cannot be one without rounding.
fn value_of(document: &Json) -> (value: Option<serde_json::Value>)
    ensures
        match value {
            Some(value) => value_content(value) == document@,
            None => holds_unreadable(document@) || !signs_agree(document@),
        },
    decreases document,
{
    proof {
        lemma_kinds(*document);
    }
    match document {
        Json::Null => Some(value_of_parts(ValueParts::Null)),
        Json::Bool(flag) => Some(value_of_parts(ValueParts::Bool(*flag))),
        Json::Number(JsonNumber::Unsigned(value)) => Some(
            value_of_parts(ValueParts::Number(unsigned_number(*value))),
        ),
        Json::Number(JsonNumber::Negative(value)) => if *value < 0 {
            Some(value_of_parts(ValueParts::Number(negative_number(*value))))
        } else {
            None
        },
        Json::Number(JsonNumber::Decimal(text)) => match decimal_number(text.as_str()) {
            Some(number) => Some(value_of_parts(ValueParts::Number(number))),
            None => None,
        },
        Json::Text(text) => Some(value_of_parts(ValueParts::Text(text.clone()))),
        Json::Array(items) => {
            proof {
                lemma_items_view(items@);
            }
            let mut values: Vec<serde_json::Value> = Vec::new();
            let mut i: usize = 0;
            while i < items.len()
                invariant
                    i <= items@.len(),
                    values@.len() == i,
                    document@ == JsonView::Array(items_view(items@)),
                    items_view(items@).len() == items@.len(),
                    forall|j: int|
                        0 <= j < items@.len() ==> #[trigger] items_view(items@)[j] == items@[j]@,
                    forall|j: int|
                        0 <= j < i ==> value_content(#[trigger] values@[j]) == items@[j]@,
                    decreases_to!(document => items),
                decreases items@.len() - i,
            {
                match value_of(&items[i]) {
                    Some(value) => {
                        values.push(value);
                    },
                    None => {
                        proof {
                            lemma_unreadable_item(items_view(items@), i as int);
                        }
                        return None;
                    },
                }
                i = i + 1;
            }
            assert(contents(values@) =~= items_view(items@));
            Some(value_of_parts(ValueParts::Array(values)))
        },
        Json::Object(members) => {
            match object_entries(members) {
                Some(entries) => {
                    let value = value_of_parts(ValueParts::Object(entries));
                    proof {
                        let made = value_content(value)->Object_0;
                        assert forall|name: Seq<char>| #[trigger]
                            made.dom().contains(name) implies members@.dom().contains(name)
                            && members@[name] == made[name] by {
                            let i = choose|i: int|
                                0 <= i < entries@.len() && #[trigger] entries@[i].0@ == name;
                            assert(members@.dom().contains(entries@[i].0@));
                        }
                        assert forall|name: Seq<char>| #[trigger]
                            members@.dom().contains(name) implies made.dom().contains(name) by {
                            let i = choose|i: int|
                                0 <= i < entries@.len() && #[trigger] entries@[i].0@ == name;
                            assert(made.dom().contains(entries@[i].0@));
                        }
                        assert(made.dom() =~= members@.dom());
                        assert(made =~= members@);
                    }
                    Some(value)
                },
                None => None,
            }
        },
    }
}

fn object_entries(members: &JsonObject) -> (entries: Option<Vec<(String, serde_json::Value)>>)
    ensures
        match entries {
            Some(entries) => holds_members(members@, entries@),
            None => holds_unreadable(JsonView::Object(members@)) || !signs_agree(
                JsonView::Object(members@),
            ),
        },
    decreases members,
{
    let mut entries: Vec<(String, serde_json::Value)> = Vec::new();
    let count: usize = members.len();
    let mut i: usize = 0;
    while i < count
        invariant
            count == members@.dom().len(),
            members.places_are_names(),
            i <= count,
            entries@.len() == i,
            forall|j: int|
                0 <= j < i ==> (#[trigger] entries@[j]).0@ == members.name_view(j)
                    && value_content(entries@[j].1) == members@[members.name_view(j)],
        decreases count - i,
    {
        let (name, document) = members.entry(i);
        match value_of(document) {
            Some(value) => {
                entries.push((name.to_owned(), value));
            },
            None => {
                proof {
                    lemma_unreadable_member(members@, name@);
                }
                return None;
            },
        }
        i = i + 1;
    }
    proof {
        assert forall|name: Seq<char>| #[trigger] members@.dom().contains(name) implies exists|
            i: int,
        | 0 <= i < entries@.len() && #[trigger] entries@[i].0@ == name by {
            let k = choose|k: int|
                0 <= k < members@.dom().len() && #[trigger] members.name_view(k) == name;
            assert(entries@[k].0@ == name);
        }
    }
    Some(entries)
}

/// Reads a document from bytes.
pub fn parse_json_bytes(bytes: &[u8]) -> (parsed: Result<Json, String>)
    ensures
        match parsed {
            Ok(document) => parsed_bytes(bytes@) == Ok::<JsonView, Seq<char>>(document@),
            Err(message) => parsed_bytes(bytes@) == Err::<JsonView, Seq<char>>(message@),
        },
{
    match value_from_bytes(bytes) {
        Ok(value) => Ok(json_of(value)),
        Err(message) => Err(message),
    }
}

/// Reads a document from text.
pub fn parse_json_text(text: &str) -> (parsed: Result<Json, String>)
    ensures
        match parsed {
            Ok(document) => parsed_text(text@) == Ok::<JsonView, Seq<char>>(document@),
            Err(message) => parsed_text(text@) == Err::<JsonView, Seq<char>>(message@),
        },
{
    match value_from_text(text) {
        Ok(value) => Ok(json_of(value)),
        Err(message) => Err(message),
    }
}

/// The compact text of a document whose numbers are read as they are written.
pub fn json_text(document: &Json) -> (text: Option<String>)
    ensures
        match text {
            Some(text) => text@ == rendered(document@),
            None => holds_unreadable(document@) || !signs_agree(document@),
        },
{
    match value_of(document) {
        Some(value) => Some(value_text(&value)),
        None => None,
    }
}

/// The bytes of the compact text of a document whose numbers are read as they are written.
pub fn json_bytes(document: &Json) -> (bytes: Option<Vec<u8>>)
    ensures
        match bytes {
            Some(bytes) => bytes@ == encode_utf8(rendered(document@)),
            None => holds_unreadable(document@) || !signs_agree(document@),
        },
{
    match value_of(document) {
        Some(value) => match value_bytes(&value) {
            Ok(bytes) => Some(bytes),
            Err(_) => None,
        },
        None => None,
    }
}

/// The indented bytes of a document whose numbers are read as they are written.
pub fn json_pretty_bytes(document: &Json) -> (bytes: Option<Vec<u8>>)
    ensures
        match bytes {
            Some(bytes) => bytes@ == rendered_pretty(document@),
            None => holds_unreadable(document@) || !signs_agree(document@),
        },
{
    match value_of(document) {
        Some(value) => match value_pretty_bytes(&value) {
            Ok(bytes) => Some(bytes),
            Err(_) => None,
        },
        None => None,
    }
}

} // verus!
