//! JSON values as trees, and their text.
use vstd::prelude::*;

use crate::text::same_text;

verus! {

/// A JSON value.
///
/// A number is held by its value where it is an integer of 64 bits, else by
/// its notation. Of several members of an object with one name the last counts.
#[derive(Debug, PartialEq, Eq)]
pub enum Json {
    Null,
    Bool(bool),
    /// An integer that is not negative.
    U64(u64),
    /// A negative integer.
    I64(i64),
    /// Another number, in the notation of JSON.
    Float(String),
    Text(String),
    Array(Vec<Json>),
    Object(Vec<(String, Json)>),
}

/// What a JSON value holds.
pub enum JsonView {
    Null,
    Bool(bool),
    U64(u64),
    I64(i64),
    Float(Seq<char>),
    Text(Seq<char>),
    Array(Seq<JsonView>),
    Object(Seq<(Seq<char>, JsonView)>),
}

impl View for Json {
    type V = JsonView;

    open spec fn view(&self) -> JsonView {
        view_of(*self)
    }
}

/// What `json` holds.
pub open spec fn view_of(json: Json) -> JsonView
    decreases json,
{
    match json {
        Json::Null => JsonView::Null,
        Json::Bool(b) => JsonView::Bool(b),
        Json::U64(n) => JsonView::U64(n),
        Json::I64(n) => JsonView::I64(n),
        Json::Float(t) => JsonView::Float(t@),
        Json::Text(t) => JsonView::Text(t@),
        Json::Array(items) => JsonView::Array(
            Seq::new(
                items@.len(),
                |i: int|
                    if 0 <= i < items@.len() {
                        view_of(items@[i])
                    } else {
                        JsonView::Null
                    },
            ),
        ),
        Json::Object(members) => JsonView::Object(
            Seq::new(
                members@.len(),
                |i: int|
                    if 0 <= i < members@.len() {
                        (members@[i].0@, view_of(members@[i].1))
                    } else {
                        (Seq::empty(), JsonView::Null)
                    },
            ),
        ),
    }
}

/// What a JSON value holds is what it is made of: numbers, texts, items in their
/// order, and members in theirs.
pub proof fn values_hold_what_they_are_made_of(json: Json, i: int)
    ensures
        json is Null ==> json@ is Null,
        json matches Json::Bool(truth) ==> json@ == JsonView::Bool(truth),
        json matches Json::U64(number) ==> json@ == JsonView::U64(number),
        json matches Json::I64(number) ==> json@ == JsonView::I64(number),
        json matches Json::Float(notation) ==> json@ == JsonView::Float(notation@),
        json matches Json::Text(text) ==> json@ == JsonView::Text(text@),
        json matches Json::Array(items) ==> (json@ matches JsonView::Array(views) && views.len()
            == items@.len() && (0 <= i < views.len() ==> views[i] == items@[i]@)),
        json matches Json::Object(members) ==> (json@ matches JsonView::Object(views) && views.len()
            == members@.len() && (0 <= i < views.len() ==> views[i] == (
            members@[i].0@,
            members@[i].1@,
        ))),
{
}

/// The last member of that name.
pub open spec fn member(members: Seq<(Seq<char>, JsonView)>, name: Seq<char>) -> Option<JsonView>
    decreases members.len(),
{
    if members.len() == 0 {
        None
    } else if members.last().0 == name {
        Some(members.last().1)
    } else {
        member(members.drop_last(), name)
    }
}

/// The field `name` of a record of `arity` fields, of which it is the one at
/// `place`. A record is an object with a member for each field, or an array of
/// the fields in order.
pub open spec fn field(record: JsonView, name: Seq<char>, place: int, arity: nat) -> Option<JsonView> {
    match record {
        JsonView::Object(members) => member(members, name),
        JsonView::Array(items) => if items.len() == arity {
            Some(items[place])
        } else {
            None
        },
        _ => None,
    }
}

/// The text that a value is, if it is there and is one.
pub open spec fn as_text(value: Option<JsonView>) -> Option<Seq<char>> {
    match value {
        Some(JsonView::Text(t)) => Some(t),
        _ => None,
    }
}

/// The number that a value is, if it is there and is an integer from 0 to `u64::MAX`.
pub open spec fn as_u64(value: Option<JsonView>) -> Option<u64> {
    match value {
        Some(JsonView::U64(n)) => Some(n),
        _ => None,
    }
}

/// The truth value that a value is, if it is there and is one.
pub open spec fn as_bool(value: Option<JsonView>) -> Option<bool> {
    match value {
        Some(JsonView::Bool(b)) => Some(b),
        _ => None,
    }
}

/// The numbers of an array of such.
pub open spec fn as_u64s(items: Seq<JsonView>) -> Option<Seq<u64>> {
    if forall|i: int| 0 <= i < items.len() ==> #[trigger] items[i] is U64 {
        Some(Seq::new(items.len(), |i: int| items[i]->U64_0))
    } else {
        None
    }
}

/// The member at `i` is the last of its name, and holds that value.
pub open spec fn is_last_member(
    members: Seq<(Seq<char>, JsonView)>,
    i: int,
    name: Seq<char>,
    value: JsonView,
) -> bool {
    &&& 0 <= i < members.len()
    &&& members[i] == (name, value)
    &&& forall|j: int| i < j < members.len() ==> (#[trigger] members[j]).0 != name
}

/// The object has a member of that name, and the last such member holds that
/// value.
pub open spec fn holds(members: Seq<(Seq<char>, JsonView)>, name: Seq<char>, value: JsonView) -> bool {
    exists|i: int| #[trigger] is_last_member(members, i, name, value)
}

/// The object has no member of that name.
pub open spec fn lacks(members: Seq<(Seq<char>, JsonView)>, name: Seq<char>) -> bool {
    forall|i: int| 0 <= i < members.len() ==> (#[trigger] members[i]).0 != name
}

/// A field of a record that is an object is its last member of that name, and
/// is missing where there is none. A field of a record that is an array is the
/// item in its place, if there are as many items as fields. Nothing else is a
/// record.
pub proof fn fields_of_records(record: JsonView, name: Seq<char>, value: JsonView, place: int, arity: nat)
    ensures
        record matches JsonView::Object(members) ==> {
            &&& holds(members, name, value) ==> field(record, name, place, arity) == Some(value)
            &&& lacks(members, name) ==> field(record, name, place, arity) is None
        },
        record matches JsonView::Array(items) ==> {
            &&& items.len() == arity ==> field(record, name, place, arity) == Some(items[place])
            &&& items.len() != arity ==> field(record, name, place, arity) is None
        },
        !(record is Object || record is Array) ==> field(record, name, place, arity) is None,
{
    if let JsonView::Object(members) = record {
        if holds(members, name, value) {
            let i = choose|i: int| #[trigger] is_last_member(members, i, name, value);
            last_member_is_the_member(members, i, name, value);
        }
        if lacks(members, name) {
            missing_member_is_none(members, name);
        }
    }
}

proof fn last_member_is_the_member(
    members: Seq<(Seq<char>, JsonView)>,
    i: int,
    name: Seq<char>,
    value: JsonView,
)
    requires
        is_last_member(members, i, name, value),
    ensures
        member(members, name) == Some(value),
    decreases members.len(),
{
    if i < members.len() - 1 {
        let front = members.drop_last();
        assert(members[members.len() - 1].0 != name);
        assert forall|j: int| i < j < front.len() implies (#[trigger] front[j]).0 != name by {
            assert(members[j].0 != name);
        }
        last_member_is_the_member(front, i, name, value);
    }
}

proof fn missing_member_is_none(members: Seq<(Seq<char>, JsonView)>, name: Seq<char>)
    requires
        lacks(members, name),
    ensures
        member(members, name) is None,
    decreases members.len(),
{
    if members.len() > 0 {
        let front = members.drop_last();
        assert(members[members.len() - 1].0 != name);
        assert forall|j: int| 0 <= j < front.len() implies (#[trigger] front[j]).0 != name by {
            assert(members[j].0 != name);
        }
        missing_member_is_none(front, name);
    }
}

/// A text is read of a JSON string alone, a number of a non-negative integer
/// alone, a truth value of one alone, and several numbers of as many.
pub proof fn values_are_read_as_their_kind(value: JsonView, numbers: Seq<u64>, items: Seq<JsonView>)
    ensures
        as_text(Some(value)) == match value {
            JsonView::Text(text) => Some(text),
            _ => None,
        },
        as_u64(Some(value)) == match value {
            JsonView::U64(number) => Some(number),
            _ => None,
        },
        as_bool(Some(value)) == match value {
            JsonView::Bool(truth) => Some(truth),
            _ => None,
        },
        as_text(None) is None && as_u64(None) is None && as_bool(None) is None,
        items.len() == numbers.len() && (forall|i: int|
            0 <= i < items.len() ==> #[trigger] items[i] == JsonView::U64(numbers[i]))
            ==> as_u64s(items) == Some(numbers),
        (exists|i: int| 0 <= i < items.len() && !(#[trigger] items[i] is U64)) ==> as_u64s(
            items,
        ) is None,
{
    if items.len() == numbers.len() && (forall|i: int|
        0 <= i < items.len() ==> #[trigger] items[i] == JsonView::U64(numbers[i])) {
        assert(as_u64s(items)->Some_0 =~= numbers);
    }
}

/// The view of a text that may be missing.
pub open spec fn text_view(text: Option<String>) -> Option<Seq<char>> {
    match text {
        Some(t) => Some(t@),
        None => None,
    }
}

impl Json {
    /// The JSON string `text`.
    pub fn text(text: &str) -> (r: Json)
        ensures
            r@ == JsonView::Text(text@),
    {
        Json::Text(text.to_owned())
    }

    /// The JSON number `n`.
    pub fn number(n: u64) -> (r: Json)
        ensures
            r@ == JsonView::U64(n),
    {
        Json::U64(n)
    }

    /// The JSON truth value `b`.
    pub fn truth(b: bool) -> (r: Json)
        ensures
            r@ == JsonView::Bool(b),
    {
        Json::Bool(b)
    }

    /// The field `name` of a record of `arity` fields, of which it is the one
    /// at `place`.
    pub fn field(&self, name: &str, place: usize, arity: usize) -> (r: Option<&Json>)
        requires
            place < arity,
        ensures
            match r {
                Some(json) => field(self@, name@, place as int, arity as nat) == Some(json@),
                None => field(self@, name@, place as int, arity as nat) is None,
            },
    {
        match self {
            Json::Object(members) => {
                let ghost views = self@->Object_0;
                let mut i: usize = members.len();
                assert(views.take(i as int) =~= views);
                while i > 0
                    invariant
                        i <= members@.len(),
                        self@ == JsonView::Object(views),
                        views.len() == members@.len(),
                        forall|k: int| 0 <= k < members@.len() ==> #[trigger] views[k] == (
                            members@[k].0@,
                            members@[k].1@,
                        ),
                        member(views, name@) == member(views.take(i as int), name@),
                    decreases i,
                {
                    i = i - 1;
                    assert(views.take(i + 1).last() == views[i as int]);
                    assert(views.take(i + 1).drop_last() =~= views.take(i as int));
                    if same_text(members[i].0.as_str(), name) {
                        return Some(&members[i].1);
                    }
                }
                None
            },
            Json::Array(items) => if items.len() == arity {
                Some(&items[place])
            } else {
                None
            },
            _ => None,
        }
    }

    /// The text field `name` of a record.
    pub fn text_field(&self, name: &str, place: usize, arity: usize) -> (r: Option<String>)
        requires
            place < arity,
        ensures
            text_view(r) == as_text(field(self@, name@, place as int, arity as nat)),
    {
        match self.field(name, place, arity) {
            Some(Json::Text(t)) => Some(t.clone()),
            _ => None,
        }
    }

    /// The number field `name` of a record.
    pub fn u64_field(&self, name: &str, place: usize, arity: usize) -> (r: Option<u64>)
        requires
            place < arity,
        ensures
            r == as_u64(field(self@, name@, place as int, arity as nat)),
    {
        match self.field(name, place, arity) {
            Some(Json::U64(n)) => Some(*n),
            _ => None,
        }
    }

    /// The truth value field `name` of a record.
    pub fn bool_field(&self, name: &str, place: usize, arity: usize) -> (r: Option<bool>)
        requires
            place < arity,
        ensures
            r == as_bool(field(self@, name@, place as int, arity as nat)),
    {
        match self.field(name, place, arity) {
            Some(Json::Bool(b)) => Some(*b),
            _ => None,
        }
    }

    /// The numbers, if the value is an array of nothing else.
    pub fn u64s(&self) -> (r: Option<Vec<u64>>)
        ensures
            match r {
                Some(numbers) => self@ is Array && as_u64s(self@->Array_0) == Some(numbers@),
                None => !(self@ is Array) || as_u64s(self@->Array_0) is None,
            },
    {
        match self {
            Json::Array(items) => {
                let ghost views = self@->Array_0;
                let mut numbers: Vec<u64> = Vec::new();
                let mut i: usize = 0;
                while i < items.len()
                    invariant
                        i <= items@.len(),
                        self@ == JsonView::Array(views),
                        views.len() == items@.len(),
                        forall|k: int| 0 <= k < items@.len() ==> #[trigger] views[k] == items@[k]@,
                        numbers@.len() == i,
                        forall|k: int| 0 <= k < i ==> #[trigger] views[k] == JsonView::U64(numbers@[k]),
                    decreases items@.len() - i,
                {
                    assert(views[i as int] == items@[i as int]@);
                    match &items[i] {
                        Json::U64(n) => numbers.push(*n),
                        _ => {
                            return None;
                        },
                    }
                    i = i + 1;
                }
                assert(as_u64s(views)->Some_0 =~= numbers@);
                Some(numbers)
            },
            _ => None,
        }
    }
}

/// A value of `serde_json`.
#[verifier::external_type_specification]
#[verifier::external_body]
pub struct ExValue(serde_json::Value);

/// The text that `serde_json` displays a value as.
pub uninterp spec fn json_display(value: JsonView) -> Seq<char>;

/// The same value as a `serde_json::Value`, variant for variant. What it holds
/// is not stated: `json_text` speaks of its text.
#[verifier::external_body]
fn value_of(json: &Json) -> (r: serde_json::Value)
{
    match json {
        Json::Null => serde_json::Value::Null,
        Json::Bool(b) => serde_json::Value::from(*b),
        Json::U64(n) => serde_json::Value::from(*n),
        Json::I64(n) => serde_json::Value::from(*n),
        Json::Float(t) => t.parse().ok().and_then(serde_json::Number::from_f64).into(),
        Json::Text(t) => serde_json::Value::from(t.as_str()),
        Json::Array(items) => items.iter().map(value_of).collect(),
        Json::Object(members) => members.iter().map(|m| (m.0.clone(), value_of(&m.1))).collect(),
    }
}

/// `serde_json::Value`'s `Display`, by `to_string`: the text is determined by
/// the tree.
#[verifier::external_body]
pub(crate) fn json_text(json: &Json) -> (r: String)
    ensures
        r@ == json_display(json@),
{
    value_of(json).to_string()
}

} // verus!
