//! JSON documents as plain values.

use vstd::prelude::*;
use crate::text::{maybe_str, same_text};

verus! {

/// A JSON number. An integer that fits is held as one; any other number keeps its text.
pub enum JsonNumber {
    Unsigned(u64),
    Negative(i64),
    Decimal(String),
}

/// The members of a JSON object, each name at most once.
pub struct JsonObject {
    entries: Vec<(String, Json)>,
}

/// A JSON document.
pub enum Json {
    Null,
    Bool(bool),
    Number(JsonNumber),
    Text(String),
    Array(Vec<Json>),
    Object(JsonObject),
}

/// What a JSON number is.
pub enum NumberView {
    Unsigned(u64),
    Negative(i64),
    Decimal(Seq<char>),
}

/// What a JSON document is: an object is a map from names to documents.
#[verifier::ext_equal]
pub enum JsonView {
    Null,
    Bool(bool),
    Number(NumberView),
    Text(Seq<char>),
    Array(Seq<JsonView>),
    Object(Map<Seq<char>, JsonView>),
}

impl View for JsonNumber {
    type V = NumberView;

    open spec fn view(&self) -> NumberView {
        match *self {
            JsonNumber::Unsigned(value) => NumberView::Unsigned(value),
            JsonNumber::Negative(value) => NumberView::Negative(value),
            JsonNumber::Decimal(text) => NumberView::Decimal(text@),
        }
    }
}

/// The documents that a sequence of values stands for.
pub closed spec fn items_view(items: Seq<Json>) -> Seq<JsonView>
    decreases items,
{
    if items.len() == 0 {
        Seq::empty()
    } else {
        items_view(items.drop_last()).push(json_view(items.last()))
    }
}

spec fn entries_view(entries: Seq<(String, Json)>) -> Map<Seq<char>, JsonView>
    decreases entries,
{
    if entries.len() == 0 {
        Map::empty()
    } else {
        entries_view(entries.drop_last()).insert(entries.last().0@, json_view(entries.last().1))
    }
}

/// The document that a value stands for.
pub closed spec fn json_view(value: Json) -> JsonView
    decreases value,
{
    match value {
        Json::Null => JsonView::Null,
        Json::Bool(flag) => JsonView::Bool(flag),
        Json::Number(number) => JsonView::Number(number@),
        Json::Text(text) => JsonView::Text(text@),
        Json::Array(items) => JsonView::Array(items_view(items@)),
        Json::Object(object) => JsonView::Object(entries_view(object.entries@)),
    }
}

impl View for Json {
    type V = JsonView;

    closed spec fn view(&self) -> JsonView {
        json_view(*self)
    }
}

impl View for JsonObject {
    type V = Map<Seq<char>, JsonView>;

    closed spec fn view(&self) -> Map<Seq<char>, JsonView> {
        entries_view(self.entries@)
    }
}

/// The member of a document under a name, where the document is an object that has one.
pub open spec fn member(document: JsonView, name: Seq<char>) -> Option<JsonView> {
    match document {
        JsonView::Object(members) => if members.dom().contains(name) {
            Some(members[name])
        } else {
            None
        },
        _ => None,
    }
}

/// The text of a document that is one.
pub open spec fn text_of(document: Option<JsonView>) -> Option<Seq<char>> {
    match document {
        Some(JsonView::Text(text)) => Some(text),
        _ => None,
    }
}

/// The number of a document that is a non-negative integer.
pub open spec fn u64_of(document: Option<JsonView>) -> Option<u64> {
    match document {
        Some(JsonView::Number(NumberView::Unsigned(value))) => Some(value),
        _ => None,
    }
}

/// The truth value of a document that is one.
pub open spec fn bool_of(document: Option<JsonView>) -> Option<bool> {
    match document {
        Some(JsonView::Bool(flag)) => Some(flag),
        _ => None,
    }
}

/// The items of a document that is an array.
pub open spec fn items_of(document: Option<JsonView>) -> Option<Seq<JsonView>> {
    match document {
        Some(JsonView::Array(items)) => Some(items),
        _ => None,
    }
}

/// The members of a document that is an object.
pub open spec fn members_of(document: Option<JsonView>) -> Option<Map<Seq<char>, JsonView>> {
    match document {
        Some(JsonView::Object(members)) => Some(members),
        _ => None,
    }
}

/// The member of an optional document under a name.
pub open spec fn step(document: Option<JsonView>, name: Seq<char>) -> Option<JsonView> {
    match document {
        Some(inner) => member(inner, name),
        None => None,
    }
}

/// The text member of a document under a name.
pub open spec fn member_text(document: JsonView, name: Seq<char>) -> Option<Seq<char>> {
    text_of(member(document, name))
}

/// The document that an optional reference stands for.
pub open spec fn seen(found: Option<&Json>) -> Option<JsonView> {
    match found {
        Some(value) => Some(value@),
        None => None,
    }
}

/// An object without members.
pub open spec fn no_members() -> Map<Seq<char>, JsonView> {
    Map::empty()
}

/// A text document.
pub open spec fn text_doc(text: Seq<char>) -> JsonView {
    JsonView::Text(text)
}

/// A document that is a non-negative integer.
pub open spec fn number_doc(value: u64) -> JsonView {
    JsonView::Number(NumberView::Unsigned(value))
}

/// Each value of a sequence stands for the document at its place.
pub broadcast proof fn lemma_items_view(items: Seq<Json>)
    ensures
        (#[trigger] items_view(items)).len() == items.len(),
        forall|i: int| 0 <= i < items.len() ==> #[trigger] items_view(items)[i] == items[i]@,
    decreases items.len(),
{
    if items.len() > 0 {
        lemma_items_view(items.drop_last());
        assert(items_view(items) == items_view(items.drop_last()).push(json_view(items.last())));
        assert forall|i: int| 0 <= i < items.len() implies #[trigger] items_view(items)[i]
            == items[i]@ by {
            if i < items.len() - 1 {
                assert(items_view(items)[i] == items_view(items.drop_last())[i]);
                assert(items.drop_last()[i] == items[i]);
            }
        }
    }
}

spec fn distinct_names(entries: Seq<(String, Json)>) -> bool {
    forall|i: int, j: int|
        0 <= i < j < entries.len() ==> #[trigger] entries[i].0@ != #[trigger] entries[j].0@
}

spec fn named(entries: Seq<(String, Json)>, name: Seq<char>) -> bool {
    exists|i: int| 0 <= i < entries.len() && #[trigger] entries[i].0@ == name
}

proof fn lemma_entries_view(entries: Seq<(String, Json)>)
    requires
        distinct_names(entries),
    ensures
        forall|i: int|
            0 <= i < entries.len() ==> entries_view(entries).dom().contains(
                #[trigger] entries[i].0@,
            ) && entries_view(entries)[entries[i].0@] == entries[i].1@,
        forall|name: Seq<char>|
            entries_view(entries).dom().contains(name) ==> #[trigger] named(entries, name),
        entries_view(entries).dom().finite(),
        entries_view(entries).dom().len() == entries.len(),
    decreases entries.len(),
{
    if entries.len() > 0 {
        let rest = entries.drop_last();
        assert(forall|i: int| 0 <= i < rest.len() ==> rest[i] == entries[i]);
        lemma_entries_view(rest);
        let last = entries.last();
        assert(entries_view(entries) == entries_view(rest).insert(last.0@, json_view(last.1)));
        if entries_view(rest).dom().contains(last.0@) {
            assert(named(rest, last.0@));
            let i = choose|i: int| 0 <= i < rest.len() && #[trigger] rest[i].0@ == last.0@;
            assert(entries[i].0@ == entries[entries.len() - 1].0@);
        }
        assert forall|i: int| 0 <= i < entries.len() implies entries_view(entries).dom().contains(
            #[trigger] entries[i].0@,
        ) && entries_view(entries)[entries[i].0@] == entries[i].1@ by {
            if i < entries.len() - 1 {
                assert(rest[i] == entries[i]);
                assert(entries[i].0@ != entries[entries.len() - 1].0@);
            }
        }
        assert forall|name: Seq<char>| entries_view(entries).dom().contains(name) implies
            #[trigger] named(entries, name) by {
            if name == last.0@ {
                assert(entries[entries.len() - 1].0@ == name);
            } else {
                assert(entries_view(rest).dom().contains(name));
                assert(named(rest, name));
                let i = choose|i: int| 0 <= i < rest.len() && #[trigger] rest[i].0@ == name;
                assert(entries[i].0@ == name);
            }
        }
    }
}

impl JsonObject {
    #[verifier::type_invariant]
    spec fn names_are_distinct(self) -> bool {
        distinct_names(self.entries@)
    }

    /// An object without members.
    pub fn new() -> (object: JsonObject)
        ensures
            object@ == no_members(),
    {
        JsonObject { entries: Vec::new() }
    }

    /// The number of members.
    pub fn len(&self) -> (count: usize)
        ensures
            count == self@.dom().len(),
            self.places_are_names(),
    {
        proof {
            use_type_invariant(self);
            lemma_entries_view(self.entries@);
            assert forall|i: int| 0 <= i < self@.dom().len() implies self@.dom().contains(
                #[trigger] self.name_view(i),
            ) by {
                assert(self@.dom().contains(self.entries@[i].0@));
            }
            assert forall|i: int, j: int| 0 <= i < j < self@.dom().len() implies
                #[trigger] self.name_view(i) != #[trigger] self.name_view(j) by {
                assert(self.entries@[i].0@ != self.entries@[j].0@);
            }
            assert forall|name: Seq<char>| #[trigger] self@.dom().contains(name) implies exists|
                i: int,
            | 0 <= i < self@.dom().len() && #[trigger] self.name_view(i) == name by {
                assert(named(self.entries@, name));
                let i = choose|i: int|
                    0 <= i < self.entries@.len() && #[trigger] self.entries@[i].0@ == name;
                assert(self.name_view(i) == name);
            }
        }
        self.entries.len()
    }

    fn position(&self, name: &str) -> (found: Option<usize>)
        ensures
            match found {
                Some(i) => i < self.entries@.len() && self.entries@[i as int].0@ == name@
                    && self@.dom().contains(name@) && self@[name@] == self.entries@[i as int].1@,
                None => !self@.dom().contains(name@),
            },
    {
        proof {
            use_type_invariant(self);
            lemma_entries_view(self.entries@);
        }
        let mut i: usize = 0;
        while i < self.entries.len()
            invariant
                i <= self.entries@.len(),
                forall|j: int| 0 <= j < i ==> #[trigger] self.entries@[j].0@ != name@,
                forall|j: int|
                    0 <= j < self.entries@.len() ==> self@.dom().contains(
                        #[trigger] self.entries@[j].0@,
                    ) && self@[self.entries@[j].0@] == self.entries@[j].1@,
                forall|other: Seq<char>|
                    self@.dom().contains(other) ==> #[trigger] named(self.entries@, other),
            decreases self.entries@.len() - i,
        {
            if same_text(self.entries[i].0.as_str(), name) {
                return Some(i);
            }
            i = i + 1;
        }
        assert(!named(self.entries@, name@));
        None
    }

    /// The member under a name.
    pub fn get(&self, name: &str) -> (found: Option<&Json>)
        ensures
            seen(found) == member(JsonView::Object(self@), name@),
    {
        match self.position(name) {
            Some(i) => Some(&self.entries[i].1),
            None => None,
        }
    }

    /// Whether a member has this name.
    pub fn contains_key(&self, name: &str) -> (found: bool)
        ensures
            found == self@.dom().contains(name@),
    {
        self.position(name).is_some()
    }

    /// The name of a member by its place.
    pub closed spec fn name_view(&self, place: int) -> Seq<char> {
        self.entries@[place].0@
    }

    /// The places go through the names of the members, each of which stands at one of them.
    pub open spec fn places_are_names(&self) -> bool {
        &&& self@.dom().finite()
        &&& forall|i: int|
            0 <= i < self@.dom().len() ==> self@.dom().contains(#[trigger] self.name_view(i))
        &&& forall|i: int, j: int|
            0 <= i < j < self@.dom().len() ==> #[trigger] self.name_view(i)
                != #[trigger] self.name_view(j)
        &&& forall|name: Seq<char>| #[trigger]
            self@.dom().contains(name) ==> exists|i: int|
                0 <= i < self@.dom().len() && #[trigger] self.name_view(i) == name
    }

    /// The member at a place, with its name.
    pub fn entry(&self, place: usize) -> (found: (&str, &Json))
        requires
            place < self@.dom().len(),
        ensures
            found.0@ == self.name_view(place as int),
            self@.dom().contains(found.0@),
            self@[found.0@] == found.1@,
            decreases_to!(self => found.1),
    {
        proof {
            use_type_invariant(self);
            lemma_entries_view(self.entries@);
            assert(self@.dom().contains(self.entries@[place as int].0@));
        }
        let entry: &(String, Json) = &self.entries[place];
        (entry.0.as_str(), &entry.1)
    }

    /// Whether each member of another object is a member here with the same value.
    pub fn includes(&self, other: &JsonObject) -> (includes: bool)
        ensures
            includes == members_within(other@, self@),
    {
        let count: usize = other.len();
        let mut i: usize = 0;
        while i < count
            invariant
                count == other@.dom().len(),
                other.places_are_names(),
                i <= count,
                forall|j: int|
                    0 <= j < i ==> self@.dom().contains(#[trigger] other.name_view(j))
                        && self@[other.name_view(j)] == other@[other.name_view(j)],
            decreases count - i,
        {
            let (name, value) = other.entry(i);
            let same: bool = match self.get(name) {
                Some(own) => own.same(value),
                None => false,
            };
            if !same {
                assert(other@.dom().contains(other.name_view(i as int)));
                return false;
            }
            i = i + 1;
        }
        assert forall|name: Seq<char>| #[trigger] other@.dom().contains(name) implies
            self@.dom().contains(name) && self@[name] == other@[name] by {
            let j = choose|j: int|
                0 <= j < other@.dom().len() && #[trigger] other.name_view(j) == name;
            assert(self@.dom().contains(other.name_view(j)));
        }
        true
    }

    /// Whether there are as many members as names and no member has another name.
    pub fn is_shaped(&self, names: &Vec<&'static str>) -> (shaped: bool)
        ensures
            shaped == shaped_by(self@, name_views(names@)),
    {
        let count: usize = self.len();
        if count != names.len() {
            return false;
        }
        let mut i: usize = 0;
        while i < count
            invariant
                count == self@.dom().len(),
                count == names@.len(),
                self.places_are_names(),
                i <= count,
                forall|j: int|
                    0 <= j < i ==> name_views(names@).contains(#[trigger] self.name_view(j)),
            decreases count - i,
        {
            let (name, _) = self.entry(i);
            if !listed(name, names) {
                assert(self@.dom().contains(self.name_view(i as int)));
                return false;
            }
            i = i + 1;
        }
        assert forall|name: Seq<char>| #[trigger] self@.dom().contains(name) implies name_views(
            names@,
        ).contains(name) by {
            let j = choose|j: int| 0 <= j < self@.dom().len() && #[trigger] self.name_view(j) == name;
            assert(name_views(names@).contains(self.name_view(j)));
        }
        true
    }

    /// Whether there are as many members as names and each name has one.
    pub fn is_complete(&self, names: &Vec<&'static str>) -> (complete: bool)
        ensures
            complete == complete_by(self@, name_views(names@)),
    {
        if self.len() != names.len() {
            return false;
        }
        let mut i: usize = 0;
        while i < names.len()
            invariant
                i <= names@.len(),
                self@.dom().len() == names@.len(),
                forall|j: int|
                    0 <= j < i ==> self@.dom().contains(#[trigger] name_views(names@)[j]),
            decreases names@.len() - i,
        {
            if !self.contains_key(names[i]) {
                assert(!self@.dom().contains(name_views(names@)[i as int]));
                return false;
            }
            i = i + 1;
        }
        true
    }

    /// The text member under a name.
    pub fn text_at(&self, name: &str) -> (found: Option<&str>)
        ensures
            maybe_str(found) == text_of(member(JsonView::Object(self@), name@)),
    {
        match self.get(name) {
            Some(value) => value.as_str(),
            None => None,
        }
    }

    /// The non-negative integer member under a name.
    pub fn u64_at(&self, name: &str) -> (found: Option<u64>)
        ensures
            found == u64_of(member(JsonView::Object(self@), name@)),
    {
        match self.get(name) {
            Some(value) => value.as_u64(),
            None => None,
        }
    }

    /// The truth value member under a name.
    pub fn bool_at(&self, name: &str) -> (found: Option<bool>)
        ensures
            found == bool_of(member(JsonView::Object(self@), name@)),
    {
        match self.get(name) {
            Some(value) => value.as_bool(),
            None => None,
        }
    }

    /// Whether the text member under a name is this text.
    pub fn says(&self, name: &str, expected: &str) -> (says: bool)
        ensures
            says == (text_of(member(JsonView::Object(self@), name@)) == Some(expected@)),
    {
        match self.text_at(name) {
            Some(text) => same_text(text, expected),
            None => false,
        }
    }

    /// Sets the member under a name, in place of an earlier one.
    pub fn insert(&mut self, name: &str, value: Json)
        ensures
            final(self)@ == old(self)@.insert(name@, value@),
    {
        proof {
            use_type_invariant(&*self);
            lemma_entries_view(self.entries@);
        }
        let ghost before = self.entries@;
        let place: Option<usize> = self.position(name);
        let mut taken: JsonObject = JsonObject::new();
        core::mem::swap(self, &mut taken);
        let mut entries: Vec<(String, Json)> = taken.entries;
        match place {
            Some(i) => {
                entries.set(i, (name.to_owned(), value));
                assert(entries@[i as int].0@ == name@);
            },
            None => {
                proof {
                    lemma_absent_name(before, name@);
                }
                entries.push((name.to_owned(), value));
                assert(entries@[before.len() as int].0@ == name@);
            },
        }
        proof {
            lemma_inserted(before, entries@, name@, value@);
        }
        *self = JsonObject { entries };
    }

    /// Drops the member under a name, where there is one.
    pub fn remove(&mut self, name: &str)
        ensures
            final(self)@ == old(self)@.remove(name@),
    {
        proof {
            use_type_invariant(&*self);
            lemma_entries_view(self.entries@);
        }
        let ghost before = self.entries@;
        match self.position(name) {
            Some(i) => {
                let mut taken: JsonObject = JsonObject::new();
                core::mem::swap(self, &mut taken);
                let mut entries: Vec<(String, Json)> = taken.entries;
                entries.remove(i);
                proof {
                    lemma_removed(before, i as int);
                }
                *self = JsonObject { entries };
            },
            None => {
                assert(self@.remove(name@) =~= self@);
            },
        }
    }

    /// The object with one member set, in the style of a literal.
    pub fn with(self, name: &str, value: Json) -> (object: JsonObject)
        ensures
            object@ == self@.insert(name@, value@),
    {
        let mut object: JsonObject = self;
        object.insert(name, value);
        object
    }

    /// The object with one text member set.
    pub fn with_text(self, name: &str, value: &str) -> (object: JsonObject)
        ensures
            object@ == self@.insert(name@, text_doc(value@)),
    {
        self.with(name, Json::text(value))
    }

    /// The object with one integer member set.
    pub fn with_number(self, name: &str, value: u64) -> (object: JsonObject)
        ensures
            object@ == self@.insert(name@, number_doc(value)),
    {
        self.with(name, Json::number(value))
    }

    /// The object with one truth value set.
    pub fn with_bool(self, name: &str, value: bool) -> (object: JsonObject)
        ensures
            object@ == self@.insert(name@, JsonView::Bool(value)),
    {
        self.with(name, Json::truth(value))
    }

    /// A copy of the object.
    pub fn copy(&self) -> (copied: JsonObject)
        ensures
            copied@ == self@,
        decreases self,
    {
        proof {
            use_type_invariant(self);
        }
        let mut entries: Vec<(String, Json)> = Vec::new();
        let mut i: usize = 0;
        while i < self.entries.len()
            invariant
                i <= self.entries@.len(),
                entries@.len() == i,
                forall|j: int|
                    0 <= j < i ==> (#[trigger] entries@[j]).0@ == self.entries@[j].0@
                        && entries@[j].1@ == self.entries@[j].1@,
            decreases self.entries@.len() - i,
        {
            let name: String = self.entries[i].0.clone();
            let value: Json = self.entries[i].1.copy();
            entries.push((name, value));
            i = i + 1;
        }
        proof {
            lemma_same_entries(entries@, self.entries@);
            assert forall|a: int, b: int| 0 <= a < b < entries@.len() implies
                #[trigger] entries@[a].0@ != #[trigger] entries@[b].0@ by {
                assert(self.entries@[a].0@ != self.entries@[b].0@);
            }
        }
        JsonObject { entries }
    }

    /// Whether two objects have the same members.
    pub fn same(&self, other: &JsonObject) -> (equal: bool)
        ensures
            equal == (self@ == other@),
        decreases self,
    {
        proof {
            use_type_invariant(self);
            use_type_invariant(other);
            lemma_entries_view(self.entries@);
            lemma_entries_view(other.entries@);
        }
        let mut i: usize = 0;
        while i < self.entries.len()
            invariant
                i <= self.entries@.len(),
                forall|j: int|
                    0 <= j < self.entries@.len() ==> self@.dom().contains(
                        #[trigger] self.entries@[j].0@,
                    ) && self@[self.entries@[j].0@] == self.entries@[j].1@,
                forall|j: int|
                    0 <= j < i ==> other@.dom().contains(#[trigger] self.entries@[j].0@)
                        && other@[self.entries@[j].0@] == self.entries@[j].1@,
            decreases self.entries@.len() - i,
        {
            match other.get(self.entries[i].0.as_str()) {
                Some(value) => {
                    if !self.entries[i].1.same(value) {
                        return false;
                    }
                },
                None => {
                    return false;
                },
            }
            i = i + 1;
        }
        let mut k: usize = 0;
        while k < other.entries.len()
            invariant
                k <= other.entries@.len(),
                forall|j: int|
                    0 <= j < other.entries@.len() ==> other@.dom().contains(
                        #[trigger] other.entries@[j].0@,
                    ),
                forall|j: int| 0 <= j < k ==> self@.dom().contains(#[trigger] other.entries@[j].0@),
            decreases other.entries@.len() - k,
        {
            if !self.contains_key(other.entries[k].0.as_str()) {
                return false;
            }
            k = k + 1;
        }
        assert forall|name: Seq<char>| #[trigger] self@.dom().contains(name) implies other@.dom().contains(
            name,
        ) && other@[name] == self@[name] by {
            assert(named(self.entries@, name));
            let j = choose|j: int|
                0 <= j < self.entries@.len() && #[trigger] self.entries@[j].0@ == name;
            assert(other@.dom().contains(self.entries@[j].0@));
        }
        assert forall|name: Seq<char>| #[trigger] other@.dom().contains(name) implies self@.dom().contains(
            name,
        ) by {
            assert(named(other.entries@, name));
            let j = choose|j: int|
                0 <= j < other.entries@.len() && #[trigger] other.entries@[j].0@ == name;
            assert(self@.dom().contains(other.entries@[j].0@));
        }
        assert(self@.dom() =~= other@.dom());
        assert(self@ =~= other@);
        true
    }
}

proof fn lemma_absent_name(entries: Seq<(String, Json)>, name: Seq<char>)
    requires
        distinct_names(entries),
        !entries_view(entries).dom().contains(name),
    ensures
        forall|i: int| 0 <= i < entries.len() ==> #[trigger] entries[i].0@ != name,
{
    lemma_entries_view(entries);
}

proof fn lemma_inserted(
    before: Seq<(String, Json)>,
    after: Seq<(String, Json)>,
    name: Seq<char>,
    value: JsonView,
)
    requires
        distinct_names(before),
        distinct_names(after),
        before.len() <= after.len(),
        forall|i: int|
            0 <= i < before.len() && before[i].0@ != name ==> #[trigger] after[i] == before[i],
        exists|i: int|
            0 <= i < after.len() && #[trigger] after[i].0@ == name && after[i].1@ == value,
        forall|i: int| before.len() <= i < after.len() ==> #[trigger] after[i].0@ == name,
        forall|i: int|
            0 <= i < before.len() && before[i].0@ == name ==> #[trigger] after[i].0@ == name,
    ensures
        entries_view(after) == entries_view(before).insert(name, value),
{
    lemma_entries_view(before);
    lemma_entries_view(after);
    let left = entries_view(after);
    let right = entries_view(before).insert(name, value);
    assert forall|key: Seq<char>| #[trigger] left.dom().contains(key) implies right.dom().contains(key)
        && right[key] == left[key] by {
        assert(named(after, key));
        let i = choose|i: int| 0 <= i < after.len() && #[trigger] after[i].0@ == key;
        let k = choose|k: int|
            0 <= k < after.len() && #[trigger] after[k].0@ == name && after[k].1@ == value;
        if key != name {
            assert(i < before.len());
            assert(after[i] == before[i]);
        } else {
            assert(after[k].0@ == name);
        }
    }
    assert forall|key: Seq<char>| #[trigger] right.dom().contains(key) implies left.dom().contains(key) by {
        if key != name {
            assert(named(before, key));
            let i = choose|i: int| 0 <= i < before.len() && #[trigger] before[i].0@ == key;
            assert(after[i] == before[i]);
        } else {
            let k = choose|k: int|
                0 <= k < after.len() && #[trigger] after[k].0@ == name && after[k].1@ == value;
            assert(after[k].0@ == name);
        }
    }
    assert(left.dom() =~= right.dom());
    assert(left =~= right);
}

proof fn lemma_removed(before: Seq<(String, Json)>, place: int)
    requires
        distinct_names(before),
        0 <= place < before.len(),
    ensures
        distinct_names(before.remove(place)),
        entries_view(before.remove(place)) == entries_view(before).remove(before[place].0@),
{
    let after = before.remove(place);
    assert forall|i: int, j: int| 0 <= i < j < after.len() implies #[trigger] after[i].0@
        != #[trigger] after[j].0@ by {
        let a = if i < place { i } else { i + 1 };
        let b = if j < place { j } else { j + 1 };
        assert(before[a].0@ != before[b].0@);
    }
    lemma_entries_view(before);
    lemma_entries_view(after);
    let name = before[place].0@;
    let left = entries_view(after);
    let right = entries_view(before).remove(name);
    assert forall|key: Seq<char>| #[trigger] left.dom().contains(key) implies right.dom().contains(key)
        && right[key] == left[key] by {
        assert(named(after, key));
        let i = choose|i: int| 0 <= i < after.len() && #[trigger] after[i].0@ == key;
        let a = if i < place { i } else { i + 1 };
        assert(before[a] == after[i]);
        assert(before[a].0@ == key);
        if a < place {
            assert(before[a].0@ != before[place].0@);
        } else {
            assert(before[place].0@ != before[a].0@);
        }
    }
    assert forall|key: Seq<char>| #[trigger] right.dom().contains(key) implies left.dom().contains(key) by {
        assert(named(before, key));
        let a = choose|a: int| 0 <= a < before.len() && #[trigger] before[a].0@ == key;
        let i = if a < place { a } else { a - 1 };
        assert(after[i] == before[a]);
        assert(after[i].0@ == key);
    }
    assert(left.dom() =~= right.dom());
    assert(left =~= right);
}

proof fn lemma_same_entries(left: Seq<(String, Json)>, right: Seq<(String, Json)>)
    requires
        left.len() == right.len(),
        forall|j: int|
            0 <= j < left.len() ==> (#[trigger] left[j]).0@ == right[j].0@ && left[j].1@
                == right[j].1@,
    ensures
        entries_view(left) == entries_view(right),
    decreases left.len(),
{
    if left.len() > 0 {
        assert(left.drop_last().len() == right.drop_last().len());
        assert forall|j: int| 0 <= j < left.drop_last().len() implies (
        #[trigger] left.drop_last()[j]).0@ == right.drop_last()[j].0@ && left.drop_last()[j].1@
            == right.drop_last()[j].1@ by {
            assert(left.drop_last()[j] == left[j]);
        }
        lemma_same_entries(left.drop_last(), right.drop_last());
        assert(left.last() == left[left.len() - 1]);
    }
}

/// Whether each member of one object is a member of the other with the same value.
pub open spec fn members_within(
    inner: Map<Seq<char>, JsonView>,
    outer: Map<Seq<char>, JsonView>,
) -> bool {
    forall|name: Seq<char>| #[trigger]
        inner.dom().contains(name) ==> outer.dom().contains(name) && outer[name] == inner[name]
}

/// The characters of each name.
pub open spec fn name_views(names: Seq<&str>) -> Seq<Seq<char>> {
    names.map_values(|name: &str| name@)
}

/// Whether there are as many members as names and no member has another name.
pub open spec fn shaped_by(members: Map<Seq<char>, JsonView>, names: Seq<Seq<char>>) -> bool {
    &&& members.dom().len() == names.len()
    &&& forall|name: Seq<char>| #[trigger] members.dom().contains(name) ==> names.contains(name)
}

/// Whether there are as many members as names and each name has one.
pub open spec fn complete_by(members: Map<Seq<char>, JsonView>, names: Seq<Seq<char>>) -> bool {
    &&& members.dom().len() == names.len()
    &&& forall|i: int| 0 <= i < names.len() ==> members.dom().contains(#[trigger] names[i])
}

fn listed(name: &str, names: &Vec<&'static str>) -> (found: bool)
    ensures
        found == name_views(names@).contains(name@),
{
    let mut i: usize = 0;
    while i < names.len()
        invariant
            i <= names@.len(),
            forall|j: int| 0 <= j < i ==> #[trigger] name_views(names@)[j] != name@,
        decreases names@.len() - i,
    {
        if same_text(name, names[i]) {
            assert(name_views(names@)[i as int] == name@);
            return true;
        }
        i = i + 1;
    }
    false
}

/// An array of texts.
pub open spec fn texts_doc(texts: Seq<Seq<char>>) -> JsonView {
    JsonView::Array(texts.map_values(|text: Seq<char>| text_doc(text)))
}

/// What each kind of value stands for.
pub proof fn lemma_kinds(document: Json)
    ensures
        match document {
            Json::Null => document@ == JsonView::Null,
            Json::Bool(flag) => document@ == JsonView::Bool(flag),
            Json::Number(number) => document@ == JsonView::Number(number@),
            Json::Text(text) => document@ == JsonView::Text(text@),
            Json::Array(items) => document@ == JsonView::Array(items_view(items@)),
            Json::Object(members) => document@ == JsonView::Object(members@),
        },
{
}

impl Json {
    /// A text document.
    pub fn text(value: &str) -> (document: Json)
        ensures
            document@ == text_doc(value@),
    {
        Json::Text(value.to_owned())
    }

    /// A document that is a non-negative integer.
    pub fn number(value: u64) -> (document: Json)
        ensures
            document@ == number_doc(value),
    {
        Json::Number(JsonNumber::Unsigned(value))
    }

    /// A document that is a number.
    pub fn from_number(value: JsonNumber) -> (document: Json)
        ensures
            document@ == JsonView::Number(value@),
    {
        Json::Number(value)
    }

    /// A document that is a truth value.
    pub fn truth(value: bool) -> (document: Json)
        ensures
            document@ == JsonView::Bool(value),
    {
        Json::Bool(value)
    }

    /// The document without content.
    pub fn null() -> (document: Json)
        ensures
            document@ == JsonView::Null,
    {
        Json::Null
    }

    /// An object document.
    pub fn object(members: JsonObject) -> (document: Json)
        ensures
            document@ == JsonView::Object(members@),
    {
        Json::Object(members)
    }

    /// An array document.
    pub fn array(items: Vec<Json>) -> (document: Json)
        ensures
            document@ == JsonView::Array(items_view(items@)),
    {
        Json::Array(items)
    }

    /// An array of texts.
    pub fn texts(values: &Vec<&str>) -> (document: Json)
        ensures
            document@ == texts_doc(name_views(values@)),
    {
        let mut items: Vec<Json> = Vec::new();
        let mut i: usize = 0;
        while i < values.len()
            invariant
                i <= values@.len(),
                items@.len() == i,
                forall|j: int| 0 <= j < i ==> (#[trigger] items@[j])@ == text_doc(values@[j]@),
            decreases values@.len() - i,
        {
            items.push(Json::text(values[i]));
            i = i + 1;
        }
        proof {
            lemma_items_view(items@);
            assert(items_view(items@) =~= name_views(values@).map_values(
                |text: Seq<char>| text_doc(text),
            ));
        }
        Json::array(items)
    }

    /// The member under a name, where the document is an object that has one.
    pub fn get(&self, name: &str) -> (found: Option<&Json>)
        ensures
            seen(found) == member(self@, name@),
    {
        match self {
            Json::Object(members) => members.get(name),
            _ => None,
        }
    }

    /// The text of a document that is one.
    pub fn as_str(&self) -> (found: Option<&str>)
        ensures
            maybe_str(found) == text_of(Some(self@)),
    {
        match self {
            Json::Text(text) => Some(text.as_str()),
            _ => None,
        }
    }

    /// The number of a document that is a non-negative integer.
    pub fn as_u64(&self) -> (found: Option<u64>)
        ensures
            found == u64_of(Some(self@)),
    {
        match self {
            Json::Number(JsonNumber::Unsigned(value)) => Some(*value),
            _ => None,
        }
    }

    /// The truth value of a document that is one.
    pub fn as_bool(&self) -> (found: Option<bool>)
        ensures
            found == bool_of(Some(self@)),
    {
        match self {
            Json::Bool(flag) => Some(*flag),
            _ => None,
        }
    }

    /// Whether the document is without content.
    pub fn is_null(&self) -> (null: bool)
        ensures
            null == (self@ is Null),
    {
        match self {
            Json::Null => true,
            _ => false,
        }
    }

    /// The items of a document that is an array.
    pub fn as_array(&self) -> (found: Option<&Vec<Json>>)
        ensures
            match found {
                Some(items) => items_of(Some(self@)) == Some(items_view(items@)),
                None => items_of(Some(self@)) is None,
            },
    {
        match self {
            Json::Array(items) => Some(items),
            _ => None,
        }
    }

    /// The members of a document that is an object.
    pub fn as_object(&self) -> (found: Option<&JsonObject>)
        ensures
            match found {
                Some(members) => members_of(Some(self@)) == Some(members@),
                None => members_of(Some(self@)) is None,
            },
    {
        match self {
            Json::Object(members) => Some(members),
            _ => None,
        }
    }

    /// The text member under a name.
    pub fn text_at(&self, name: &str) -> (found: Option<&str>)
        ensures
            maybe_str(found) == member_text(self@, name@),
    {
        match self.get(name) {
            Some(value) => value.as_str(),
            None => None,
        }
    }

    /// The non-negative integer member under a name.
    pub fn u64_at(&self, name: &str) -> (found: Option<u64>)
        ensures
            found == u64_of(member(self@, name@)),
    {
        match self.get(name) {
            Some(value) => value.as_u64(),
            None => None,
        }
    }

    /// The truth value member under a name.
    pub fn bool_at(&self, name: &str) -> (found: Option<bool>)
        ensures
            found == bool_of(member(self@, name@)),
    {
        match self.get(name) {
            Some(value) => value.as_bool(),
            None => None,
        }
    }

    /// Whether the text member under a name is this text.
    pub fn says(&self, name: &str, expected: &str) -> (says: bool)
        ensures
            says == (member_text(self@, name@) == Some(expected@)),
    {
        match self.text_at(name) {
            Some(text) => same_text(text, expected),
            None => false,
        }
    }

    /// A copy of the document.
    pub fn copy(&self) -> (copied: Json)
        ensures
            copied@ == self@,
        decreases self,
    {
        match self {
            Json::Null => Json::Null,
            Json::Bool(flag) => Json::Bool(*flag),
            Json::Number(JsonNumber::Unsigned(value)) => Json::number(*value),
            Json::Number(JsonNumber::Negative(value)) => Json::Number(JsonNumber::Negative(*value)),
            Json::Number(JsonNumber::Decimal(text)) => Json::Number(
                JsonNumber::Decimal(text.clone()),
            ),
            Json::Text(text) => Json::Text(text.clone()),
            Json::Array(items) => {
                let mut copied: Vec<Json> = Vec::new();
                let mut i: usize = 0;
                while i < items.len()
                    invariant
                        i <= items@.len(),
                        copied@.len() == i,
                        forall|j: int| 0 <= j < i ==> #[trigger] copied@[j]@ == items@[j]@,
                        decreases_to!(self => items),
                    decreases items@.len() - i,
                {
                    let item: Json = items[i].copy();
                    copied.push(item);
                    i = i + 1;
                }
                proof {
                    lemma_items_view(copied@);
                    lemma_items_view(items@);
                    assert(items_view(copied@) =~= items_view(items@));
                }
                Json::Array(copied)
            },
            Json::Object(members) => Json::Object(members.copy()),
        }
    }

    /// Whether two documents are the same.
    pub fn same(&self, other: &Json) -> (equal: bool)
        ensures
            equal == (self@ == other@),
        decreases self,
    {
        match (self, other) {
            (Json::Null, Json::Null) => true,
            (Json::Bool(left), Json::Bool(right)) => *left == *right,
            (Json::Number(left), Json::Number(right)) => match (left, right) {
                (JsonNumber::Unsigned(a), JsonNumber::Unsigned(b)) => *a == *b,
                (JsonNumber::Negative(a), JsonNumber::Negative(b)) => *a == *b,
                (JsonNumber::Decimal(a), JsonNumber::Decimal(b)) => same_text(
                    a.as_str(),
                    b.as_str(),
                ),
                _ => false,
            },
            (Json::Text(left), Json::Text(right)) => same_text(left.as_str(), right.as_str()),
            (Json::Array(left), Json::Array(right)) => {
                proof {
                    lemma_items_view(left@);
                    lemma_items_view(right@);
                }
                if left.len() != right.len() {
                    return false;
                }
                let mut i: usize = 0;
                while i < left.len()
                    invariant
                        i <= left@.len(),
                        left@.len() == right@.len(),
                        items_view(left@).len() == left@.len(),
                        items_view(right@).len() == right@.len(),
                        self@ == JsonView::Array(items_view(left@)),
                        other@ == JsonView::Array(items_view(right@)),
                        forall|j: int|
                            0 <= j < left@.len() ==> #[trigger] items_view(left@)[j] == left@[j]@,
                        forall|j: int|
                            0 <= j < right@.len() ==> #[trigger] items_view(right@)[j]
                                == right@[j]@,
                        forall|j: int|
                            0 <= j < i ==> #[trigger] items_view(left@)[j] == items_view(right@)[j],
                        decreases_to!(self => left),
                    decreases left@.len() - i,
                {
                    if !left[i].same(&right[i]) {
                        assert(items_view(left@)[i as int] != items_view(right@)[i as int]);
                        return false;
                    }
                    i = i + 1;
                }
                assert(items_view(left@) =~= items_view(right@));
                true
            },
            (Json::Object(left), Json::Object(right)) => left.same(right),
            _ => false,
        }
    }
}

} // verus!
