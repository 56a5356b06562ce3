//! JSON values.

use vstd::prelude::*;
use vstd::set_lib::lemma_subset_equality;

use crate::table::Table;
use crate::text::same_text;

verus! {

/// A JSON number. `Signed` is for negative integers; a number that is not an integer is kept as its
/// decimal text.
#[derive(Debug, PartialEq, Eq)]
pub enum JsonNumber {
    Unsigned(u64),
    Signed(i64),
    Decimal(String),
}

/// A JSON value.
#[derive(Debug)]
pub enum Json {
    Null,
    Bool(bool),
    Number(JsonNumber),
    Text(String),
    Array(Vec<Json>),
    Object(JsonObject),
}

/// A JSON object: values by their keys. Its view is that map.
#[derive(Debug)]
pub struct JsonObject {
    entries: Table<String, Json>,
}

impl View for JsonObject {
    type V = Map<Seq<char>, Json>;

    closed spec fn view(&self) -> Map<Seq<char>, Json> {
        self.entries@
    }
}

impl JsonObject {
    /// The keys in the order in which they came.
    pub closed spec fn keys(self) -> Seq<Seq<char>> {
        self.entries.keys()
    }

    /// A value is a part of the object that holds it.
    pub proof fn values_are_parts(self, key: Seq<char>)
        requires
            self@.dom().contains(key),
        ensures
            decreases_to!(self => self@[key]),
    {
        assert(decreases_to!(self => self.entries));
        self.entries.values_are_parts(key);
    }

    /// The object without fields.
    pub fn new() -> (result: Self)
        ensures
            result@ == Map::<Seq<char>, Json>::empty(),
            result.keys() == Seq::<Seq<char>>::empty(),
    {
        JsonObject { entries: Table::new() }
    }

    /// The number of fields; every key is in the list of keys once.
    pub fn len(&self) -> (result: usize)
        ensures
            result == self.keys().len(),
            self.keys().no_duplicates(),
            self.keys().to_set() == self@.dom(),
    {
        self.entries.len()
    }

    /// The field at an index.
    pub fn entry(&self, index: usize) -> (result: (&str, &Json))
        requires
            index < self.keys().len(),
        ensures
            result.0@ == self.keys()[index as int],
            self@.dom().contains(result.0@),
            self@[result.0@] == *result.1,
    {
        let (key, value) = self.entries.entry(index);
        (key.as_str(), value)
    }

    /// The value under `key`.
    pub fn get(&self, key: &str) -> (result: Option<&Json>)
        ensures
            result == if self@.dom().contains(key@) {
                Some(&self@[key@])
            } else {
                None
            },
    {
        self.entries.get(&key.to_owned())
    }

    /// Moves the value under `key` out of the object.
    pub fn take(self, key: &str) -> (result: Option<Json>)
        ensures
            result == if self@.dom().contains(key@) {
                Some(self@[key@])
            } else {
                None
            },
    {
        let mut entries = self.entries;
        entries.remove(&key.to_owned())
    }

    /// The object with `key` set to `value`, whatever it was before.
    pub fn with(self, key: &str, value: Json) -> (result: Self)
        ensures
            result@ == self@.insert(key@, value),
            result.keys() == if self@.dom().contains(key@) {
                self.keys()
            } else {
                self.keys().push(key@)
            },
    {
        let mut entries = self.entries;
        let _ = entries.insert(key.to_owned(), value);
        JsonObject { entries }
    }
}

/// Whether two numbers are the same.
pub open spec fn same_number(left: JsonNumber, right: JsonNumber) -> bool {
    match (left, right) {
        (JsonNumber::Unsigned(one), JsonNumber::Unsigned(other)) => one == other,
        (JsonNumber::Signed(one), JsonNumber::Signed(other)) => one == other,
        (JsonNumber::Decimal(one), JsonNumber::Decimal(other)) => one@ == other@,
        _ => false,
    }
}

/// Whether two values are the same. Objects are when they have the same keys, in whatever order,
/// with the same value under each.
pub open spec fn same_value(left: Json, right: Json) -> bool
    decreases left,
{
    match (left, right) {
        (Json::Null, Json::Null) => true,
        (Json::Bool(one), Json::Bool(other)) => one == other,
        (Json::Number(one), Json::Number(other)) => same_number(one, other),
        (Json::Text(one), Json::Text(other)) => one@ == other@,
        (Json::Array(one), Json::Array(other)) => {
            &&& one@.len() == other@.len()
            &&& forall|i: int| 0 <= i < one@.len() ==> same_value(#[trigger] one@[i], other@[i])
        },
        (Json::Object(one), Json::Object(other)) => {
            proof {
                assert forall|key: Seq<char>| one@.dom().contains(key) implies decreases_to!(
                    left => #[trigger] one@[key]
                ) by {
                    one.values_are_parts(key);
                }
            }
            &&& one@.dom() == other@.dom()
            &&& forall|key: Seq<char>|
                one@.dom().contains(key) ==> same_value(#[trigger] one@[key], other@[key])
        },
        _ => false,
    }
}

/// Whether two objects have the same keys with the same values.
pub open spec fn same_object(left: JsonObject, right: JsonObject) -> bool {
    &&& left@.dom() == right@.dom()
    &&& forall|key: Seq<char>|
        left@.dom().contains(key) ==> same_value(#[trigger] left@[key], right@[key])
}

fn equal_numbers(left: &JsonNumber, right: &JsonNumber) -> (result: bool)
    ensures
        result == same_number(*left, *right),
{
    match (left, right) {
        (JsonNumber::Unsigned(one), JsonNumber::Unsigned(other)) => *one == *other,
        (JsonNumber::Signed(one), JsonNumber::Signed(other)) => *one == *other,
        (JsonNumber::Decimal(one), JsonNumber::Decimal(other)) => same_text(
            one.as_str(),
            other.as_str(),
        ),
        _ => false,
    }
}

fn equal_arrays(left: &Vec<Json>, right: &Vec<Json>) -> (result: bool)
    ensures
        result == (left@.len() == right@.len() && forall|i: int|
            0 <= i < left@.len() ==> same_value(#[trigger] left@[i], right@[i])),
    decreases *left,
{
    if left.len() != right.len() {
        return false;
    }
    let mut index: usize = 0;
    while index < left.len()
        invariant
            index <= left@.len(),
            left@.len() == right@.len(),
            forall|i: int| 0 <= i < index ==> same_value(#[trigger] left@[i], right@[i]),
        decreases left@.len() - index,
    {
        if !equal_values(&left[index], &right[index]) {
            assert(!same_value(left@[index as int], right@[index as int]));
            return false;
        }
        index += 1;
    }
    true
}

fn equal_objects(left: &JsonObject, right: &JsonObject) -> (result: bool)
    ensures
        result == same_object(*left, *right),
    decreases *left,
{
    let count: usize = left.len();
    let total: usize = right.len();
    proof {
        left.keys().unique_seq_to_set();
        right.keys().unique_seq_to_set();
    }
    if count != total {
        return false;
    }
    let mut index: usize = 0;
    while index < count
        invariant
            index <= count,
            count == left.keys().len(),
            left.keys().to_set() == left@.dom(),
            forall|i: int|
                0 <= i < index ==> right@.dom().contains(#[trigger] left.keys()[i]) && same_value(
                    left@[left.keys()[i]],
                    right@[left.keys()[i]],
                ),
        decreases count - index,
    {
        let (key, value) = left.entry(index);
        proof {
            left.values_are_parts(key@);
        }
        match right.get(key) {
            Some(other) => {
                if !equal_values(value, other) {
                    assert(!same_value(left@[key@], right@[key@]));
                    return false;
                }
            },
            None => {
                return false;
            },
        }
        index += 1;
    }
    proof {
        assert forall|key: Seq<char>| left@.dom().contains(key) implies right@.dom().contains(key)
            && same_value(#[trigger] left@[key], right@[key]) by {
            assert(left.keys().to_set().contains(key));
            let place = choose|place: int|
                0 <= place < left.keys().len() && left.keys()[place] == key;
        }
        assert(left@.dom().subset_of(right@.dom()));
        lemma_subset_equality(left@.dom(), right@.dom());
    }
    true
}

fn equal_values(left: &Json, right: &Json) -> (result: bool)
    ensures
        result == same_value(*left, *right),
    decreases *left,
{
    match (left, right) {
        (Json::Null, Json::Null) => true,
        (Json::Bool(one), Json::Bool(other)) => *one == *other,
        (Json::Number(one), Json::Number(other)) => equal_numbers(one, other),
        (Json::Text(one), Json::Text(other)) => same_text(one.as_str(), other.as_str()),
        (Json::Array(one), Json::Array(other)) => equal_arrays(one, other),
        (Json::Object(one), Json::Object(other)) => equal_objects(one, other),
        _ => false,
    }
}

impl Clone for JsonNumber {
    fn clone(&self) -> (result: Self)
        ensures
            same_number(*self, result),
    {
        match self {
            JsonNumber::Unsigned(number) => JsonNumber::Unsigned(*number),
            JsonNumber::Signed(number) => JsonNumber::Signed(*number),
            JsonNumber::Decimal(text) => JsonNumber::Decimal(text.clone()),
        }
    }
}

fn copy_array(values: &Vec<Json>) -> (result: Vec<Json>)
    ensures
        result@.len() == values@.len(),
        forall|i: int| 0 <= i < values@.len() ==> same_value(#[trigger] values@[i], result@[i]),
    decreases *values,
{
    let mut result: Vec<Json> = Vec::new();
    let mut index: usize = 0;
    while index < values.len()
        invariant
            index <= values@.len(),
            result@.len() == index,
            forall|i: int| 0 <= i < index ==> same_value(#[trigger] values@[i], result@[i]),
        decreases values@.len() - index,
    {
        result.push(copy_value(&values[index]));
        index += 1;
    }
    result
}

fn copy_object(object: &JsonObject) -> (result: JsonObject)
    ensures
        same_object(*object, result),
        result.keys() == object.keys(),
    decreases *object,
{
    let count: usize = object.len();
    let mut result = JsonObject::new();
    let mut index: usize = 0;
    assert(object.keys().take(0) =~= Seq::<Seq<char>>::empty());
    while index < count
        invariant
            index <= count,
            count == object.keys().len(),
            object.keys().no_duplicates(),
            object.keys().to_set() == object@.dom(),
            result.keys() == object.keys().take(index as int),
            forall|key: Seq<char>| #[trigger]
                result@.dom().contains(key) <==> object.keys().take(index as int).contains(key),
            forall|key: Seq<char>|
                result@.dom().contains(key) ==> same_value(#[trigger] object@[key], result@[key]),
        decreases count - index,
    {
        let (key, value) = object.entry(index);
        let ghost before = object.keys().take(index as int);
        let ghost after = object.keys().take(index + 1);
        proof {
            object.values_are_parts(key@);
            assert(after =~= before.push(key@));
            assert(!before.contains(key@));
            assert forall|other: Seq<char>| after.contains(other) <==> before.contains(other) || other
                == key@ by {
                if before.contains(other) {
                    let place = before.index_of(other);
                    assert(after[place] == other);
                }
                assert(after[index as int] == key@);
            }
        }
        result = result.with(key, copy_value(value));
        index += 1;
    }
    proof {
        assert(object.keys().take(count as int) =~= object.keys());
        assert forall|key: Seq<char>| result@.dom().contains(key) <==> object@.dom().contains(key) by {
            assert(object.keys().to_set().contains(key) <==> object.keys().contains(key));
        }
        assert(object@.dom() =~= result@.dom());
    }
    result
}

fn copy_value(value: &Json) -> (result: Json)
    ensures
        same_value(*value, result),
    decreases *value,
{
    match value {
        Json::Null => Json::Null,
        Json::Bool(truth) => Json::Bool(*truth),
        Json::Number(number) => Json::Number(number.clone()),
        Json::Text(text) => Json::Text(text.clone()),
        Json::Array(values) => Json::Array(copy_array(values)),
        Json::Object(object) => Json::Object(copy_object(object)),
    }
}

impl Clone for Json {
    fn clone(&self) -> (result: Self)
        ensures
            same_value(*self, result),
    {
        copy_value(self)
    }
}

impl Clone for JsonObject {
    fn clone(&self) -> (result: Self)
        ensures
            same_object(*self, result),
            result.keys() == self.keys(),
    {
        copy_object(self)
    }
}

impl PartialEq for Json {
    fn eq(&self, other: &Self) -> (result: bool) {
        equal_values(self, other)
    }
}

impl vstd::std_specs::cmp::PartialEqSpecImpl for Json {
    open spec fn obeys_eq_spec() -> bool {
        true
    }

    open spec fn eq_spec(&self, other: &Self) -> bool {
        same_value(*self, *other)
    }
}

impl Eq for Json {

}

impl PartialEq for JsonObject {
    fn eq(&self, other: &Self) -> (result: bool) {
        equal_objects(self, other)
    }
}

impl vstd::std_specs::cmp::PartialEqSpecImpl for JsonObject {
    open spec fn obeys_eq_spec() -> bool {
        true
    }

    open spec fn eq_spec(&self, other: &Self) -> bool {
        same_object(*self, *other)
    }
}

impl Eq for JsonObject {

}

/// Whether a value is a given text.
pub open spec fn is_text(value: Json, text: Seq<char>) -> bool {
    value matches Json::Text(found) && found@ == text
}

/// Whether a value is a given unsigned integer.
pub open spec fn is_unsigned(value: Json, number: int) -> bool {
    value matches Json::Number(JsonNumber::Unsigned(found)) && found == number
}

impl Json {
    /// The value of a text.
    pub fn text(text: &str) -> (result: Self)
        ensures
            is_text(result, text@),
    {
        Json::Text(text.to_owned())
    }

    pub fn unsigned(number: u64) -> (result: Self)
        ensures
            is_unsigned(result, number as int),
    {
        Json::Number(JsonNumber::Unsigned(number))
    }

    /// The text, where the value is one.
    pub fn as_str(&self) -> (result: Option<&str>)
        ensures
            result is Some <==> self is Text,
            result is Some ==> is_text(*self, result->0@),
    {
        match self {
            Json::Text(text) => Some(text.as_str()),
            _ => None,
        }
    }

    /// The object, where the value is one.
    pub fn into_object(self) -> (result: Option<JsonObject>)
        ensures
            result is Some <==> self is Object,
            result is Some ==> self == Json::Object(result->0),
    {
        match self {
            Json::Object(object) => Some(object),
            _ => None,
        }
    }

    /// The value under `key`, where this value is an object with such a field.
    pub fn get(&self, key: &str) -> (result: Option<&Json>)
        ensures
            result == match *self {
                Json::Object(object) => if object@.dom().contains(key@) {
                    Some(&object@[key@])
                } else {
                    None
                },
                _ => None,
            },
    {
        match self {
            Json::Object(object) => object.get(key),
            _ => None,
        }
    }
}

/// Every value equals itself.
pub proof fn values_equal_themselves(value: Json)
    ensures
        same_value(value, value),
    decreases value,
{
    match value {
        Json::Array(items) => {
            assert forall|i: int| 0 <= i < items@.len() implies same_value(
                #[trigger] items@[i],
                items@[i],
            ) by {
                values_equal_themselves(items@[i]);
            }
        },
        Json::Object(object) => {
            assert forall|key: Seq<char>| object@.dom().contains(key) implies same_value(
                #[trigger] object@[key],
                object@[key],
            ) by {
                object.values_are_parts(key);
                values_equal_themselves(object@[key]);
            }
        },
        _ => {},
    }
}

/// A value equals another exactly if the other equals it.
pub proof fn equality_goes_both_ways(left: Json, right: Json)
    ensures
        same_value(left, right) <==> same_value(right, left),
    decreases left,
{
    match (left, right) {
        (Json::Array(one), Json::Array(other)) => {
            if one@.len() == other@.len() {
                assert forall|i: int| 0 <= i < one@.len() implies (same_value(
                    #[trigger] one@[i],
                    other@[i],
                ) <==> same_value(other@[i], one@[i])) by {
                    equality_goes_both_ways(one@[i], other@[i]);
                }
                if same_value(right, left) {
                    assert forall|i: int| 0 <= i < one@.len() implies same_value(
                        #[trigger] one@[i],
                        other@[i],
                    ) by {
                        assert(same_value(other@[i], one@[i]));
                    }
                }
                if same_value(left, right) {
                    assert forall|i: int| 0 <= i < other@.len() implies same_value(
                        #[trigger] other@[i],
                        one@[i],
                    ) by {
                        assert(same_value(one@[i], other@[i]));
                    }
                }
            }
        },
        (Json::Object(one), Json::Object(other)) => {
            if one@.dom() == other@.dom() {
                assert forall|key: Seq<char>| one@.dom().contains(key) implies (same_value(
                    #[trigger] one@[key],
                    other@[key],
                ) <==> same_value(other@[key], one@[key])) by {
                    one.values_are_parts(key);
                    equality_goes_both_ways(one@[key], other@[key]);
                }
                if same_value(right, left) {
                    assert forall|key: Seq<char>| one@.dom().contains(key) implies same_value(
                        #[trigger] one@[key],
                        other@[key],
                    ) by {
                        assert(same_value(other@[key], one@[key]));
                    }
                }
                if same_value(left, right) {
                    assert forall|key: Seq<char>| other@.dom().contains(key) implies same_value(
                        #[trigger] other@[key],
                        one@[key],
                    ) by {
                        assert(same_value(one@[key], other@[key]));
                    }
                }
            }
        },
        _ => {},
    }
}

/// Values of different kinds differ, and so do values of one kind with a part that differs.
pub proof fn different_parts_make_different_values(left: Json, right: Json)
    requires
        same_value(left, right),
    ensures
        left is Null <==> right is Null,
        left matches Json::Bool(one) ==> right == Json::Bool(one),
        left matches Json::Text(one) ==> right is Text && right->Text_0@ == one@,
        left matches Json::Number(JsonNumber::Unsigned(one)) ==> right == Json::Number(
            JsonNumber::Unsigned(one),
        ),
        left matches Json::Number(JsonNumber::Signed(one)) ==> right == Json::Number(
            JsonNumber::Signed(one),
        ),
        left matches Json::Number(JsonNumber::Decimal(one)) ==> right is Number
            && right->Number_0 is Decimal && right->Number_0->Decimal_0@ == one@,
        left matches Json::Array(one) ==> right is Array && right->Array_0@.len() == one@.len()
            && forall|i: int|
            0 <= i < one@.len() ==> same_value(#[trigger] one@[i], right->Array_0@[i]),
        left matches Json::Object(one) ==> right is Object && same_object(one, right->Object_0),
{
}

/// Objects are equal exactly if they have the same names, and equal values under them; the order
/// of the names does not matter.
pub proof fn objects_are_equal_by_name(left: JsonObject, right: JsonObject)
    ensures
        same_object(left, right) <==> (forall|key: Seq<char>| #[trigger]
            left@.dom().contains(key) <==> right@.dom().contains(key)) && forall|key: Seq<char>|
            left@.dom().contains(key) ==> same_value(#[trigger] left@[key], right@[key]),
        same_object(left, right) <==> same_value(Json::Object(left), Json::Object(right)),
{
    if forall|key: Seq<char>| #[trigger]
        left@.dom().contains(key) <==> right@.dom().contains(key) {
        assert(left@.dom() =~= right@.dom());
    }
}

/// A value is a text, or a number without a sign, exactly if it was made as one.
pub proof fn values_are_what_they_were_made_as(text: String, number: u64, other: int)
    ensures
        is_text(Json::Text(text), text@),
        !is_text(Json::Null, text@),
        is_unsigned(Json::Number(JsonNumber::Unsigned(number)), other) <==> number == other,
        !is_unsigned(Json::Text(text), other),
        same_number(JsonNumber::Unsigned(number), JsonNumber::Unsigned(number)),
        forall|value: Json| #[trigger]
            is_unsigned(value, other) ==> value is Number && value->Number_0 is Unsigned
                && value->Number_0->Unsigned_0 == other,
        forall|value: Json| #[trigger]
            is_text(value, text@) ==> value is Text && value->Text_0@ == text@,
{
}

} // verus!
