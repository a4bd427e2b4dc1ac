//! JSON values as plain data, and the serde_json calls that read and write them.
use crate::members;
use crate::text::{self, same};
use vstd::prelude::*;

verus! {

/// A JSON number: an integer in the range of `u64`, a negative integer in the range of `i64`, or
/// any other number by its shortest decimal text.
#[derive(Debug, PartialEq, Eq)]
pub enum JsonNumber {
    Unsigned(u64),
    Negative(i64),
    Float(String),
}

/// A JSON value. The members of an object stand in ascending order of their names, each name
/// once.
#[derive(Debug, PartialEq, Eq)]
pub enum Json {
    Null,
    Bool(bool),
    Number(JsonNumber),
    Text(String),
    Array(Vec<Json>),
    Object(Vec<JsonMember>),
}

/// One member of a JSON object.
#[derive(Debug, PartialEq, Eq)]
pub struct JsonMember {
    pub name: String,
    pub value: Json,
}

/// The mathematical content of a JSON number.
pub enum NumberView {
    Integer(int),
    Float(Seq<char>),
}

/// The mathematical content of a JSON value.
pub enum JsonView {
    Null,
    Bool(bool),
    Number(NumberView),
    Text(Seq<char>),
    Array(Seq<JsonView>),
    Object(Seq<(Seq<char>, JsonView)>),
}

impl JsonNumber {
    pub open spec fn view(self) -> NumberView {
        match self {
            JsonNumber::Unsigned(n) => NumberView::Integer(n as int),
            JsonNumber::Negative(n) => NumberView::Integer(n as int),
            JsonNumber::Float(text) => NumberView::Float(text@),
        }
    }
}

impl Json {
    pub open spec fn view(self) -> JsonView
        decreases self,
    {
        match self {
            Json::Null => JsonView::Null,
            Json::Bool(b) => JsonView::Bool(b),
            Json::Number(n) => JsonView::Number(n.view()),
            Json::Text(s) => JsonView::Text(s@),
            Json::Array(items) => JsonView::Array(
                Seq::new(
                    items@.len(),
                    |i: int|
                        if 0 <= i < items@.len() {
                            items@[i].view()
                        } else {
                            JsonView::Null
                        },
                ),
            ),
            Json::Object(members) => JsonView::Object(
                Seq::new(
                    members@.len(),
                    |i: int|
                        if 0 <= i < members@.len() {
                            (members@[i].name@, members@[i].value.view())
                        } else {
                            (Seq::empty(), JsonView::Null)
                        },
                ),
            ),
        }
    }
}

/// The contents of the members of an object.
pub open spec fn members_view(members: Seq<JsonMember>) -> Seq<(Seq<char>, JsonView)> {
    Seq::new(members.len(), |i: int| (members[i].name@, members[i].value.view()))
}

/// The contents of a list of values.
pub open spec fn values_view(values: Seq<Json>) -> Seq<JsonView> {
    Seq::new(values.len(), |i: int| values[i].view())
}

/// The content of a value, or of none.
pub open spec fn option_json(value: Option<Json>) -> Option<JsonView> {
    match value {
        Some(value) => Some(value.view()),
        None => None,
    }
}

proof fn object_view_is_members_view(members: Vec<JsonMember>)
    ensures
        Json::Object(members).view() == JsonView::Object(members_view(members@)),
{
    assert(Json::Object(members).view()->Object_0 =~= members_view(members@));
}

proof fn array_view_is_values_view(items: Vec<Json>)
    ensures
        Json::Array(items).view() == JsonView::Array(values_view(items@)),
{
    assert(Json::Array(items).view()->Array_0 =~= values_view(items@));
}

/// The member of that name of an object; no other value has one.
pub open spec fn member(value: JsonView, name: Seq<char>) -> Option<JsonView> {
    match value {
        JsonView::Object(members) => members::value_of(members, name),
        _ => None,
    }
}

/// The text of a text value.
pub open spec fn as_text(value: Option<JsonView>) -> Option<Seq<char>> {
    match value {
        Some(JsonView::Text(text)) => Some(text),
        _ => None,
    }
}

/// The integer of a number in the range of `u64`.
pub open spec fn as_unsigned(value: Option<JsonView>) -> Option<u64> {
    match value {
        Some(JsonView::Number(NumberView::Integer(n))) => if 0 <= n <= u64::MAX {
            Some(n as u64)
        } else {
            None
        },
        _ => None,
    }
}

/// The integer of a number in the range of `i64`.
pub open spec fn as_signed(value: Option<JsonView>) -> Option<i64> {
    match value {
        Some(JsonView::Number(NumberView::Integer(n))) => if i64::MIN <= n <= i64::MAX {
            Some(n as i64)
        } else {
            None
        },
        _ => None,
    }
}

impl Json {
    /// Returns the member of that name.
    pub fn get(&self, name: &str) -> (r: Option<&Json>)
        ensures
            match r {
                Some(found) => member(self.view(), name@) == Some(found.view()),
                None => member(self.view(), name@) is None,
            },
    {
        match self {
            Json::Object(members) => {
                let ghost seen = members_view(members@);
                proof {
                    object_view_is_members_view(*members);
                }
                for i in 0..members.len()
                    invariant
                        seen == members_view(members@),
                        self.view() == JsonView::Object(seen),
                        forall|j: int| 0 <= j < i ==> (#[trigger] seen[j]).0 != name@,
                {
                    if same(members[i].name.as_str(), name) {
                        proof {
                            assert(seen[i as int].0 == name@);
                            members::position_is(seen, name@, i as int);
                        }
                        return Some(&members[i].value);
                    }
                    assert(seen[i as int].0 != name@);
                }
                proof {
                    members::position_is(seen, name@, seen.len() as int);
                }
                None
            },
            _ => None,
        }
    }

    /// Returns the text of a text value.
    pub fn as_str(&self) -> (r: Option<&str>)
        ensures
            match r {
                Some(found) => as_text(Some(self.view())) == Some(found@),
                None => as_text(Some(self.view())) is None,
            },
    {
        match self {
            Json::Text(found) => Some(found.as_str()),
            _ => None,
        }
    }

    /// Returns the integer of a number in the range of `u64`.
    pub fn as_u64(&self) -> (r: Option<u64>)
        ensures
            r == as_unsigned(Some(self.view())),
    {
        match self {
            Json::Number(JsonNumber::Unsigned(n)) => Some(*n),
            Json::Number(JsonNumber::Negative(n)) => if *n >= 0 {
                Some(*n as u64)
            } else {
                None
            },
            _ => None,
        }
    }

    /// Returns the integer of a number in the range of `i64`.
    pub fn as_i64(&self) -> (r: Option<i64>)
        ensures
            r == as_signed(Some(self.view())),
    {
        match self {
            Json::Number(JsonNumber::Unsigned(n)) => if *n <= 9223372036854775807u64 {
                Some(*n as i64)
            } else {
                None
            },
            Json::Number(JsonNumber::Negative(n)) => Some(*n),
            _ => None,
        }
    }

    /// Tells whether the value is an object.
    pub fn is_object(&self) -> (r: bool)
        ensures
            r == (self.view() is Object),
    {
        match self {
            Json::Object(_) => true,
            _ => false,
        }
    }

    /// Tells whether the value is an array.
    pub fn is_array(&self) -> (r: bool)
        ensures
            r == (self.view() is Array),
    {
        match self {
            Json::Array(_) => true,
            _ => false,
        }
    }

    /// Returns a copy.
    pub fn copy(&self) -> (r: Json)
        ensures
            r.view() == self.view(),
        decreases self,
    {
        match self {
            Json::Null => Json::Null,
            Json::Bool(b) => Json::Bool(*b),
            Json::Number(JsonNumber::Unsigned(n)) => Json::Number(JsonNumber::Unsigned(*n)),
            Json::Number(JsonNumber::Negative(n)) => Json::Number(JsonNumber::Negative(*n)),
            Json::Number(JsonNumber::Float(s)) => Json::Number(JsonNumber::Float(s.clone())),
            Json::Text(s) => Json::Text(s.clone()),
            Json::Array(items) => {
                let mut made: Vec<Json> = Vec::new();
                for i in 0..items.len()
                    invariant
                        *self == Json::Array(*items),
                        made@.len() == i,
                        forall|j: int| 0 <= j < i ==> (#[trigger] made@[j]).view() == items@[j].view(),
                {
                    assert(decreases_to!(self => self->Array_0));
                    assert(decreases_to!(items => items@));
                    assert(decreases_to!(items@ => items@[i as int]));
                    made.push(items[i].copy());
                }
                proof {
                    array_view_is_values_view(made);
                    array_view_is_values_view(*items);
                    assert(values_view(made@) =~= values_view(items@));
                }
                Json::Array(made)
            },
            Json::Object(members) => {
                let mut made: Vec<JsonMember> = Vec::new();
                for i in 0..members.len()
                    invariant
                        *self == Json::Object(*members),
                        made@.len() == i,
                        forall|j: int|
                            0 <= j < i ==> (#[trigger] made@[j]).value.view()
                                == members@[j].value.view() && made@[j].name@ == members@[j].name@,
                {
                    assert(decreases_to!(self => self->Object_0));
                    assert(decreases_to!(members => members@));
                    assert(decreases_to!(members@ => members@[i as int]));
                    assert(decreases_to!(members@[i as int] => members@[i as int].value));
                    made.push(
                        JsonMember {
                            name: members[i].name.clone(),
                            value: members[i].value.copy(),
                        },
                    );
                }
                proof {
                    object_view_is_members_view(made);
                    object_view_is_members_view(*members);
                    assert(members_view(made@) =~= members_view(members@));
                }
                Json::Object(made)
            },
        }
    }
}

/// Two numbers are the same: the same integer, or the same float. Zero has two float texts.
pub open spec fn number_same(a: NumberView, b: NumberView) -> bool {
    match (a, b) {
        (NumberView::Integer(m), NumberView::Integer(n)) => m == n,
        (NumberView::Float(s), NumberView::Float(t)) => s == t || (zero_text(s) && zero_text(t)),
        _ => false,
    }
}

/// A text of the float zero.
pub open spec fn zero_text(text: Seq<char>) -> bool {
    text == "0.0"@ || text == "-0.0"@
}

/// Two values are the same, part by part.
pub open spec fn json_same(a: JsonView, b: JsonView) -> bool
    decreases a,
{
    match (a, b) {
        (JsonView::Null, JsonView::Null) => true,
        (JsonView::Bool(x), JsonView::Bool(y)) => x == y,
        (JsonView::Number(x), JsonView::Number(y)) => number_same(x, y),
        (JsonView::Text(x), JsonView::Text(y)) => x == y,
        (JsonView::Array(x), JsonView::Array(y)) => x.len() == y.len() && forall|i: int|
            0 <= i < x.len() ==> json_same(#[trigger] x[i], y[i]),
        (JsonView::Object(x), JsonView::Object(y)) => x.len() == y.len() && forall|i: int|
            0 <= i < x.len() ==> (#[trigger] x[i]).0 == y[i].0 && json_same(x[i].1, y[i].1),
        _ => false,
    }
}

/// Two optional values are the same.
pub open spec fn option_same(a: Option<JsonView>, b: Option<JsonView>) -> bool {
    match (a, b) {
        (None, None) => true,
        (Some(x), Some(y)) => json_same(x, y),
        _ => false,
    }
}

fn same_number(a: &JsonNumber, b: &JsonNumber) -> (r: bool)
    ensures
        r == number_same(a.view(), b.view()),
{
    match (a, b) {
        (JsonNumber::Unsigned(m), JsonNumber::Unsigned(n)) => *m == *n,
        (JsonNumber::Unsigned(m), JsonNumber::Negative(n)) => *n >= 0 && *n as u64 == *m,
        (JsonNumber::Negative(m), JsonNumber::Unsigned(n)) => *m >= 0 && *m as u64 == *n,
        (JsonNumber::Negative(m), JsonNumber::Negative(n)) => *m == *n,
        (JsonNumber::Float(s), JsonNumber::Float(t)) => same(s.as_str(), t.as_str()) || ((same(
            s.as_str(),
            "0.0",
        ) || same(s.as_str(), "-0.0")) && (same(t.as_str(), "0.0") || same(t.as_str(), "-0.0"))),
        _ => false,
    }
}

/// Tells whether two values are the same.
pub fn same_json(a: &Json, b: &Json) -> (r: bool)
    ensures
        r == json_same(a.view(), b.view()),
    decreases a,
{
    match (a, b) {
        (Json::Null, Json::Null) => true,
        (Json::Bool(x), Json::Bool(y)) => *x == *y,
        (Json::Number(x), Json::Number(y)) => same_number(x, y),
        (Json::Text(x), Json::Text(y)) => same(x.as_str(), y.as_str()),
        (Json::Array(x), Json::Array(y)) => {
            proof {
                array_view_is_values_view(*x);
                array_view_is_values_view(*y);
            }
            if x.len() != y.len() {
                return false;
            }
            for i in 0..x.len()
                invariant
                    *a == Json::Array(*x),
                    x@.len() == y@.len(),
                    a.view() == JsonView::Array(values_view(x@)),
                    b.view() == JsonView::Array(values_view(y@)),
                    forall|j: int|
                        0 <= j < i ==> json_same(
                            #[trigger] values_view(x@)[j],
                            values_view(y@)[j],
                        ),
            {
                assert(decreases_to!(a => a->Array_0));
                assert(decreases_to!(x => x@));
                assert(decreases_to!(x@ => x@[i as int]));
                if !same_json(&x[i], &y[i]) {
                    assert(!json_same(values_view(x@)[i as int], values_view(y@)[i as int]));
                    return false;
                }
            }
            true
        },
        (Json::Object(x), Json::Object(y)) => {
            proof {
                object_view_is_members_view(*x);
                object_view_is_members_view(*y);
            }
            if x.len() != y.len() {
                return false;
            }
            for i in 0..x.len()
                invariant
                    *a == Json::Object(*x),
                    x@.len() == y@.len(),
                    a.view() == JsonView::Object(members_view(x@)),
                    b.view() == JsonView::Object(members_view(y@)),
                    forall|j: int|
                        0 <= j < i ==> (#[trigger] members_view(x@)[j]).0 == members_view(y@)[j].0
                            && json_same(members_view(x@)[j].1, members_view(y@)[j].1),
            {
                assert(decreases_to!(a => a->Object_0));
                assert(decreases_to!(x => x@));
                assert(decreases_to!(x@ => x@[i as int]));
                assert(decreases_to!(x@[i as int] => x@[i as int].value));
                if x[i].name != y[i].name {
                    assert(members_view(x@)[i as int].0 != members_view(y@)[i as int].0);
                    return false;
                }
                if !same_json(&x[i].value, &y[i].value) {
                    assert(!json_same(
                        members_view(x@)[i as int].1,
                        members_view(y@)[i as int].1,
                    ));
                    return false;
                }
            }
            true
        },
        _ => false,
    }
}

/// Tells whether two optional values are the same.
pub fn same_optional_json(a: &Option<Json>, b: &Option<Json>) -> (r: bool)
    ensures
        r == option_same(option_json(*a), option_json(*b)),
{
    match (a, b) {
        (None, None) => true,
        (Some(x), Some(y)) => same_json(x, y),
        _ => false,
    }
}

/// Every value is the same as itself.
pub proof fn json_same_as_itself(a: JsonView)
    ensures
        json_same(a, a),
    decreases a,
{
    match a {
        JsonView::Array(x) => {
            assert forall|i: int| 0 <= i < x.len() implies json_same(#[trigger] x[i], x[i]) by {
                json_same_as_itself(x[i]);
            }
        },
        JsonView::Object(x) => {
            assert forall|i: int| 0 <= i < x.len() implies (#[trigger] x[i]).0 == x[i].0
                && json_same(x[i].1, x[i].1) by {
                assert(decreases_to!(x => x[i]));
                assert(decreases_to!(x[i] => x[i].1));
                json_same_as_itself(x[i].1);
            }
        },
        _ => {},
    }
}

#[verifier::external_type_specification]
#[verifier::external_body]
pub struct ExJsonValue(serde_json::Value);

#[verifier::external_type_specification]
#[verifier::external_body]
pub struct ExJsonError(serde_json::Error);

/// What a `serde_json::Value` holds.
pub uninterp spec fn value_content(value: serde_json::Value) -> JsonView;

/// What `serde_json::from_slice` reads a byte text as: the value, or nothing where it refuses.
pub uninterp spec fn parsed_json(bytes: Seq<u8>) -> Option<JsonView>;

/// What `serde_json::to_vec` writes for a value, or nothing where it refuses.
pub uninterp spec fn encoded_json(value: JsonView) -> Option<Seq<u8>>;

/// A `serde_json::Value` taken apart by one level.
pub enum OpenValue {
    Null,
    Bool(bool),
    Number(JsonNumber),
    Text(String),
    Array(Vec<serde_json::Value>),
    Object(Vec<(String, serde_json::Value)>),
}

/// The contents of named values.
pub open spec fn named_contents(members: Seq<(String, serde_json::Value)>) -> Seq<
    (Seq<char>, JsonView),
> {
    Seq::new(members.len(), |i: int| (members[i].0@, value_content(members[i].1)))
}

/// The content of a value taken apart.
pub open spec fn open_content(open: OpenValue) -> JsonView {
    match open {
        OpenValue::Null => JsonView::Null,
        OpenValue::Bool(b) => JsonView::Bool(b),
        OpenValue::Number(n) => JsonView::Number(n.view()),
        OpenValue::Text(s) => JsonView::Text(s@),
        OpenValue::Array(items) => JsonView::Array(
            Seq::new(items@.len(), |i: int| value_content(items@[i])),
        ),
        OpenValue::Object(members) => JsonView::Object(named_contents(members@)),
    }
}

/// Names in ascending order, each once.
pub open spec fn ascending_names(members: Seq<(Seq<char>, JsonView)>) -> bool {
    forall|i: int, j: int|
        0 <= i < j < members.len() ==> text::precedes(
            (#[trigger] members[i]).0,
            (#[trigger] members[j]).0,
        )
}

/// `serde_json::from_slice` into a `serde_json::Value`: what comes out depends on the bytes
/// alone.
#[verifier::external_body]
fn parse_value(bytes: &[u8]) -> (r: Result<serde_json::Value, serde_json::Error>)
    ensures
        match r {
            Ok(value) => parsed_json(bytes@) == Some(value_content(value)),
            Err(_) => parsed_json(bytes@) is None,
        },
{
    serde_json::from_slice(bytes)
}

/// The variants of a `serde_json::Value`, and what each holds. A number is told apart by
/// `Number::as_u64` and `Number::as_i64`, and otherwise given by its text.
#[verifier::external_body]
fn open_value(value: serde_json::Value) -> (r: OpenValue)
    ensures
        value_content(value) == open_content(r),
{
    match value {
        serde_json::Value::Null => OpenValue::Null,
        serde_json::Value::Bool(b) => OpenValue::Bool(b),
        serde_json::Value::Number(n) => OpenValue::Number(
            match (n.as_u64(), n.as_i64()) {
                (Some(m), _) => JsonNumber::Unsigned(m),
                (None, Some(m)) => JsonNumber::Negative(m),
                (None, None) => JsonNumber::Float(n.to_string()),
            },
        ),
        serde_json::Value::String(s) => OpenValue::Text(s),
        serde_json::Value::Array(items) => OpenValue::Array(items),
        serde_json::Value::Object(map) => OpenValue::Object(map.into_iter().collect()),
    }
}

/// `serde_json::Value::String`.
#[verifier::external_body]
pub(crate) fn text_value(s: &str) -> (r: serde_json::Value)
    ensures
        value_content(r) == JsonView::Text(s@),
{
    serde_json::Value::String(s.to_string())
}

/// `serde_json::Value::from` of an unsigned integer.
#[verifier::external_body]
pub(crate) fn number_value(n: u64) -> (r: serde_json::Value)
    ensures
        value_content(r) == JsonView::Number(NumberView::Integer(n as int)),
{
    serde_json::Value::from(n)
}

/// `serde_json::Value::Object` of a map collected from its members. The map keeps its members in
/// ascending order of their names, so members that come in that order stay as they are.
#[verifier::external_body]
pub(crate) fn object_value(members: Vec<(String, serde_json::Value)>) -> (r: serde_json::Value)
    requires
        ascending_names(named_contents(members@)),
    ensures
        value_content(r) == JsonView::Object(named_contents(members@)),
{
    serde_json::Value::Object(members.into_iter().collect())
}

/// `serde_json::to_vec` of a value: the bytes depend on the content of the value alone. The
/// compact form has no white space between its parts and escapes every control character inside
/// a text, so no line break occurs in it; and no value is written as nothing.
#[verifier::external_body]
pub(crate) fn encode_value(value: &serde_json::Value) -> (r: Result<Vec<u8>, serde_json::Error>)
    ensures
        match r {
            Ok(bytes) => encoded_json(value_content(*value)) == Some(bytes@) && bytes@.len() > 0
                && !bytes@.contains(10u8) && !bytes@.contains(13u8),
            Err(_) => encoded_json(value_content(*value)) is None,
        },
{
    serde_json::to_vec(value)
}

/// Takes a `serde_json::Value` over as plain data.
pub fn json_of_value(value: serde_json::Value) -> (r: Json)
    ensures
        r.view() == value_content(value),
    decreases value_content(value),
{
    let ghost whole = value_content(value);
    match open_value(value) {
        OpenValue::Null => Json::Null,
        OpenValue::Bool(b) => Json::Bool(b),
        OpenValue::Number(n) => Json::Number(n),
        OpenValue::Text(s) => Json::Text(s),
        OpenValue::Array(items) => {
            let ghost all = items@;
            let mut made: Vec<Json> = Vec::new();
            for item in it: items
                invariant
                    whole == value_content(value),
                    whole is Array,
                    whole->Array_0.len() == all.len(),
                    forall|j: int|
                        0 <= j < all.len() ==> #[trigger] whole->Array_0[j] == value_content(all[j]),
                    it.seq() == all,
                    made@.len() == it.index(),
                    forall|j: int|
                        0 <= j < made@.len() ==> (#[trigger] made@[j]).view() == value_content(
                            all[j],
                        ),
            {
                let ghost at = made@.len() as int;
                proof {
                    assert(item == all[at]);
                    assert(decreases_to!(whole => whole->Array_0));
                    assert(decreases_to!(whole->Array_0 => whole->Array_0[at]));
                }
                made.push(json_of_value(item));
            }
            proof {
                array_view_is_values_view(made);
                assert(values_view(made@) =~= whole->Array_0);
            }
            Json::Array(made)
        },
        OpenValue::Object(members) => {
            let ghost all = members@;
            let mut made: Vec<JsonMember> = Vec::new();
            for member in it: members
                invariant
                    whole == value_content(value),
                    whole == JsonView::Object(named_contents(all)),
                    it.seq() == all,
                    made@.len() == it.index(),
                    forall|j: int|
                        0 <= j < made@.len() ==> (#[trigger] made@[j]).value.view()
                            == value_content(all[j].1) && made@[j].name@ == all[j].0@,
            {
                let ghost at = made@.len() as int;
                let (name, item) = member;
                proof {
                    assert((name, item) == all[at]);
                    assert(decreases_to!(whole => whole->Object_0));
                    assert(decreases_to!(whole->Object_0 => whole->Object_0[at]));
                    assert(decreases_to!(whole->Object_0[at] => whole->Object_0[at].1));
                }
                made.push(JsonMember { name, value: json_of_value(item) });
            }
            proof {
                object_view_is_members_view(made);
                assert(members_view(made@) =~= named_contents(all));
            }
            Json::Object(made)
        },
    }
}

/// Reads a JSON text, or refuses it.
pub fn parse_json(bytes: &[u8]) -> (r: Option<Json>)
    ensures
        option_json(r) == parsed_json(bytes@),
{
    match parse_value(bytes) {
        Ok(value) => Some(json_of_value(value)),
        Err(_) => None,
    }
}

// ---------------------------------------------------------------------------------------------
// Laws
// ---------------------------------------------------------------------------------------------
/// Only an object has members, and the member of a name is the first one of that name.
pub proof fn members_are_found_by_name(value: JsonView, name: Seq<char>)
    ensures
        !(value is Object) ==> member(value, name) is None,
        value matches JsonView::Object(all) ==> {
            &&& member(value, name) is None <==> (forall|i: int|
                0 <= i < all.len() ==> (#[trigger] all[i]).0 != name)
            &&& forall|i: int|
                0 <= i < all.len() && (#[trigger] all[i]).0 == name && (forall|j: int|
                    0 <= j < i ==> (#[trigger] all[j]).0 != name) ==> member(value, name) == Some(
                    all[i].1,
                )
        },
{
    match value {
        JsonView::Object(all) => {
            members::value_is_that_of_the_first(all, name);
        },
        _ => {},
    }
}

/// The readings of a value: a text is read as a text and nothing else is, and an integer is read
/// as unsigned or signed exactly where it fits.
pub proof fn readings_fit_the_value(value: JsonView, text: Seq<char>, n: u64, m: i64)
    ensures
        as_text(None) is None && as_unsigned(None) is None && as_signed(None) is None,
        as_text(Some(value)) == Some(text) <==> value == JsonView::Text(text),
        as_unsigned(Some(value)) == Some(n) <==> value == JsonView::Number(
            NumberView::Integer(n as int),
        ),
        as_signed(Some(value)) == Some(m) <==> value == JsonView::Number(
            NumberView::Integer(m as int),
        ),
{
}

/// No number in a value is a float.
pub open spec fn float_free(value: JsonView) -> bool
    decreases value,
{
    match value {
        JsonView::Number(NumberView::Float(_)) => false,
        JsonView::Array(items) => forall|i: int|
            0 <= i < items.len() ==> float_free(#[trigger] items[i]),
        JsonView::Object(all) => forall|i: int|
            0 <= i < all.len() ==> float_free((#[trigger] all[i]).1),
        _ => true,
    }
}

/// Two values without floats are the same exactly where they are equal: no difference in a text,
/// a number, a name, an order or a length is overlooked.
pub proof fn same_values_are_equal(a: JsonView, b: JsonView)
    requires
        float_free(a),
    ensures
        json_same(a, b) <==> a == b,
    decreases a,
{
    if a == b {
        json_same_as_itself(a);
    } else if json_same(a, b) {
        match (a, b) {
            (JsonView::Array(x), JsonView::Array(y)) => {
                assert forall|i: int| 0 <= i < x.len() implies x[i] == y[i] by {
                    assert(json_same(x[i], y[i]));
                    same_values_are_equal(x[i], y[i]);
                }
                assert(x =~= y);
            },
            (JsonView::Object(x), JsonView::Object(y)) => {
                assert forall|i: int| 0 <= i < x.len() implies x[i] == y[i] by {
                    assert(json_same(x[i].1, y[i].1));
                    assert(decreases_to!(x => x[i]));
                    assert(decreases_to!(x[i] => x[i].1));
                    same_values_are_equal(x[i].1, y[i].1);
                }
                assert(x =~= y);
            },
            _ => {},
        }
    }
}

/// Equality of optional values follows that of the values: both are missing, or both are there
/// and the same.
pub proof fn optional_values_compare_by_content(a: Option<JsonView>, b: Option<JsonView>)
    ensures
        option_same(a, b) ==> a is Some == b is Some,
        a is None && b is None ==> option_same(a, b),
        a is Some && b is Some ==> option_same(a, b) == json_same(a->0, b->0),
{
}

/// A value is read in parts: the contents of an array and of an object are those of their parts,
/// one by one.
pub proof fn contents_are_those_of_the_parts(items: Vec<Json>, all: Vec<JsonMember>)
    ensures
        Json::Array(items).view() matches JsonView::Array(seen) && seen.len() == items@.len() && (
        forall|i: int| 0 <= i < items@.len() ==> seen[i] == (#[trigger] items@[i]).view()),
        Json::Object(all).view() matches JsonView::Object(seen) && seen.len() == all@.len() && (
        forall|i: int|
            0 <= i < all@.len() ==> seen[i].0 == (#[trigger] all@[i]).name@ && seen[i].1
                == all@[i].value.view()),
{
    array_view_is_values_view(items);
    object_view_is_members_view(all);
}

} // verus!
