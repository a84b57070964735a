//! JSON documents as the bridge reads and writes them.
//!
//! Reading a text and writing a document are left to `serde_json`; what lies
//! between, looking members up and telling the kinds of value apart, is
//! done here on a tree of plain values.
use serde_json::Value;
use vstd::prelude::*;

verus! {

/// The content of a JSON document as a mathematical value.
///
/// Integers are unbounded. A number that is no 64-bit integer is held as the
/// decimal text that `serde_json` prints for it. An object lists its members
/// in the order in which they were written.
#[verifier::ext_equal]
pub enum JsonView {
    Null,
    Bool(bool),
    Int(int),
    Real(Seq<char>),
    Str(Seq<char>),
    Array(Seq<JsonView>),
    Object(Seq<(Seq<char>, JsonView)>),
}

/// The value of the last member called `key` among `members`, if there is
/// one: where a key is written twice, the later member counts.
pub open spec fn lookup(members: Seq<(Seq<char>, JsonView)>, key: Seq<char>) -> Option<JsonView>
    decreases members.len(),
{
    if members.len() == 0 {
        None
    } else if members.last().0 == key {
        Some(members.last().1)
    } else {
        lookup(members.drop_last(), key)
    }
}

impl JsonView {
    /// The member called `key` of an object; `None` for anything that is no
    /// object or has no such member.
    pub open spec fn member(self, key: Seq<char>) -> Option<JsonView> {
        match self {
            JsonView::Object(members) => lookup(members, key),
            _ => None,
        }
    }

    /// The text of a string value.
    pub open spec fn as_str(self) -> Option<Seq<char>> {
        match self {
            JsonView::Str(s) => Some(s),
            _ => None,
        }
    }

    /// The value of an integer that fits `u64`.
    pub open spec fn as_u64(self) -> Option<u64> {
        match self {
            JsonView::Int(n) => if 0 <= n <= u64::MAX {
                Some(n as u64)
            } else {
                None
            },
            _ => None,
        }
    }

    /// The value of a boolean.
    pub open spec fn as_bool(self) -> Option<bool> {
        match self {
            JsonView::Bool(b) => Some(b),
            _ => None,
        }
    }

    /// The items of an array.
    pub open spec fn as_array(self) -> Option<Seq<JsonView>> {
        match self {
            JsonView::Array(items) => Some(items),
            _ => None,
        }
    }

    /// Whether the value is a number of either kind.
    pub open spec fn is_number(self) -> bool {
        self is Int || self is Real
    }
}

/// The member called `key` of `parent`, where there is a parent and it has
/// one. Chained, this walks down a path as indexing a `serde_json::Value`
/// by strings does, with `None` in place of its `null`.
pub open spec fn child(parent: Option<JsonView>, key: Seq<char>) -> Option<JsonView> {
    match parent {
        Some(doc) => doc.member(key),
        None => None,
    }
}

/// The text of `doc`, where there is a `doc` and it is a string.
pub open spec fn text_of(doc: Option<JsonView>) -> Option<Seq<char>> {
    match doc {
        Some(v) => v.as_str(),
        None => None,
    }
}

/// A JSON number: an integer that fits 64 bits, unsigned or signed, or any
/// other number as the decimal text that `serde_json` prints for it. A
/// `Real` whose text is no number is written as `null`.
#[derive(Debug, PartialEq, Eq)]
pub enum Number {
    Unsigned(u64),
    Signed(i64),
    Real(String),
}

/// One `key: value` pair of a JSON object.
#[derive(Debug, PartialEq, Eq)]
pub struct Member {
    pub key: String,
    pub value: Json,
}

/// A JSON document.
#[derive(Debug, PartialEq, Eq)]
pub enum Json {
    Null,
    Bool(bool),
    Number(Number),
    Str(String),
    Array(Vec<Json>),
    Object(Vec<Member>),
}

impl View for Number {
    type V = JsonView;

    open spec fn view(&self) -> JsonView {
        match self {
            Number::Unsigned(n) => JsonView::Int(*n as int),
            Number::Signed(n) => JsonView::Int(*n as int),
            Number::Real(text) => JsonView::Real(text@),
        }
    }
}

impl View for Member {
    type V = (Seq<char>, JsonView);

    open spec fn view(&self) -> (Seq<char>, JsonView) {
        (self.key@, self.value@)
    }
}

impl View for Json {
    type V = JsonView;

    open spec fn view(&self) -> JsonView
        decreases self,
    {
        match self {
            Json::Null => JsonView::Null,
            Json::Bool(b) => JsonView::Bool(*b),
            Json::Number(n) => n@,
            Json::Str(s) => JsonView::Str(s@),
            Json::Array(items) => JsonView::Array(items_view(*items)),
            Json::Object(members) => JsonView::Object(members_view(*members)),
        }
    }
}

/// The items of an array, each by its content.
pub open spec fn items_view(items: Vec<Json>) -> Seq<JsonView>
    decreases items,
{
    Seq::new(
        items.len() as nat,
        |i: int|
            if 0 <= i < items.len() {
                items[i].view()
            } else {
                JsonView::Null
            },
    )
}

/// The members of an object, each by its key and its content.
pub open spec fn members_view(members: Vec<Member>) -> Seq<(Seq<char>, JsonView)>
    decreases members,
{
    Seq::new(
        members.len() as nat,
        |i: int|
            if 0 <= i < members.len() {
                (members[i].key@, members[i].value.view())
            } else {
                (Seq::empty(), JsonView::Null)
            },
    )
}

impl Json {
    /// A string value holding `text`.
    pub fn text(text: &str) -> (doc: Json)
        ensures
            doc@ == JsonView::Str(text@),
    {
        Json::Str(text.to_owned())
    }

    /// An unsigned integer value.
    pub fn unsigned(n: u64) -> (doc: Json)
        ensures
            doc@ == JsonView::Int(n as int),
    {
        Json::Number(Number::Unsigned(n))
    }

    /// An object with the given members, in their order.
    pub fn object(members: Vec<Member>) -> (doc: Json)
        ensures
            doc@ == JsonView::Object(members_view(members)),
    {
        Json::Object(members)
    }

    /// The member called `key` of an object, as `serde_json`'s `Value::get`
    /// gives it for a string index.
    pub fn member(&self, key: &str) -> (r: Option<&Json>)
        ensures
            match r {
                Some(v) => self@.member(key@) == Some(v@),
                None => self@.member(key@) is None,
            },
    {
        match self {
            Json::Object(members) => {
                let wanted = key.to_owned();
                let ghost all = members_view(*members);
                let mut i: usize = members.len();
                assert(all.take(i as int) == all);
                while i > 0
                    invariant
                        i <= members.len(),
                        all == members_view(*members),
                        self@ == JsonView::Object(all),
                        wanted@ == key@,
                        lookup(all, key@) == lookup(all.take(i as int), key@),
                    decreases i,
                {
                    i = i - 1;
                    proof {
                        let upto = all.take(i + 1);
                        assert(upto.last() == all[i as int]);
                        assert(upto.drop_last() == all.take(i as int));
                        assert(all[i as int] == members[i as int]@);
                    }
                    if members[i].key == wanted {
                        return Some(&members[i].value);
                    }
                }
                None
            },
            _ => None,
        }
    }

    /// The text of a string value.
    pub fn as_str(&self) -> (r: Option<&str>)
        ensures
            match r {
                Some(s) => self@.as_str() == Some(s@),
                None => self@.as_str() is None,
            },
    {
        match self {
            Json::Str(s) => Some(s.as_str()),
            _ => None,
        }
    }

    /// The value of an integer that is not negative.
    pub fn as_u64(&self) -> (r: Option<u64>)
        ensures
            r == self@.as_u64(),
    {
        match self {
            Json::Number(Number::Unsigned(n)) => Some(*n),
            Json::Number(Number::Signed(n)) => if *n >= 0 {
                Some(*n as u64)
            } else {
                None
            },
            _ => None,
        }
    }

    /// The value of a boolean.
    pub fn as_bool(&self) -> (r: Option<bool>)
        ensures
            r == self@.as_bool(),
    {
        match self {
            Json::Bool(b) => Some(*b),
            _ => None,
        }
    }

    /// The items of an array.
    pub fn as_array(&self) -> (r: Option<&Vec<Json>>)
        ensures
            match r {
                Some(items) => self@.as_array() == Some(items_view(*items)),
                None => self@.as_array() is None,
            },
    {
        match self {
            Json::Array(items) => Some(items),
            _ => None,
        }
    }

    /// The number that a numeric value holds.
    pub fn as_number(&self) -> (r: Option<&Number>)
        ensures
            match r {
                Some(n) => self@.is_number() && n@ == self@,
                None => !self@.is_number(),
            },
    {
        match self {
            Json::Number(n) => Some(n),
            _ => None,
        }
    }
}

/// The member called `key` of `parent`, where there is a parent and it has
/// one.
pub fn child_of<'a>(parent: Option<&'a Json>, key: &str) -> (r: Option<&'a Json>)
    ensures
        match r {
            Some(v) => child(view_of(parent), key@) == Some(v@),
            None => child(view_of(parent), key@) is None,
        },
{
    match parent {
        Some(doc) => doc.member(key),
        None => None,
    }
}

/// The text of `doc`, where there is a `doc` and it is a string.
pub fn text_in<'a>(doc: Option<&'a Json>) -> (r: Option<&'a str>)
    ensures
        match r {
            Some(s) => text_of(view_of(doc)) == Some(s@),
            None => text_of(view_of(doc)) is None,
        },
{
    match doc {
        Some(v) => v.as_str(),
        None => None,
    }
}

/// The content of a document that may be absent.
pub open spec fn view_of(doc: Option<&Json>) -> Option<JsonView> {
    match doc {
        Some(v) => Some(v@),
        None => None,
    }
}

impl Member {
    /// The member `key: value`.
    pub fn new(key: &str, value: Json) -> (m: Member)
        ensures
            m@ == (key@, value@),
    {
        Member { key: key.to_owned(), value }
    }
}

impl Clone for Json {
    fn clone(&self) -> (copy: Json)
        ensures
            copy@ == self@,
        decreases self,
    {
        match self {
            Json::Null => Json::Null,
            Json::Bool(b) => Json::Bool(*b),
            Json::Number(n) => Json::Number(n.clone()),
            Json::Str(s) => Json::Str(s.clone()),
            Json::Array(items) => {
                let mut copies: Vec<Json> = Vec::new();
                let mut i: usize = 0;
                while i < items.len()
                    invariant
                        i <= items.len(),
                        *self == Json::Array(*items),
                        copies.len() == i,
                        forall|k: int| 0 <= k < i ==> (#[trigger] copies[k])@ == items[k]@,
                    decreases items.len() - i,
                {
                    proof {
                        vstd::std_specs::vec::axiom_vec_index_decreases(*items, i as int);
                        assert(decreases_to!(*self => self->Array_0));
                    }
                    copies.push(items[i].clone());
                    i = i + 1;
                }
                assert(items_view(copies) =~= items_view(*items));
                Json::Array(copies)
            },
            Json::Object(members) => {
                let mut copies: Vec<Member> = Vec::new();
                let mut i: usize = 0;
                while i < members.len()
                    invariant
                        i <= members.len(),
                        *self == Json::Object(*members),
                        copies.len() == i,
                        forall|k: int| 0 <= k < i ==> (#[trigger] copies[k])@ == members[k]@,
                    decreases members.len() - i,
                {
                    proof {
                        vstd::std_specs::vec::axiom_vec_index_decreases(*members, i as int);
                        assert(decreases_to!(*self => self->Object_0));
                        assert(decreases_to!(members[i as int] => members[i as int].value));
                    }
                    let key = members[i].key.clone();
                    copies.push(Member { key, value: members[i].value.clone() });
                    i = i + 1;
                }
                assert(members_view(copies) =~= members_view(*members));
                Json::Object(copies)
            },
        }
    }
}

impl Clone for Number {
    fn clone(&self) -> (copy: Number)
        ensures
            copy@ == self@,
    {
        match self {
            Number::Unsigned(n) => Number::Unsigned(*n),
            Number::Signed(n) => Number::Signed(*n),
            Number::Real(text) => Number::Real(text.clone()),
        }
    }
}

#[verifier::external_type_specification]
#[verifier::external_body]
pub struct ExValue(serde_json::Value);

#[verifier::external_type_specification]
#[verifier::external_body]
pub struct ExError(serde_json::Error);

/// What a `serde_json::Value` holds.
pub uninterp spec fn value_content(value: Value) -> JsonView;

/// The text that `serde_json` prints for a `serde_json::Value`.
pub uninterp spec fn value_text(value: Value) -> Seq<char>;

/// The document that `serde_json` reads from a text; `None` where it rejects
/// the text.
pub uninterp spec fn parsed_text(text: Seq<char>) -> Option<JsonView>;

/// The text that `serde_json` writes for a document.
pub uninterp spec fn rendered_text(doc: JsonView) -> Seq<char>;

/// `serde_json::from_str` at `serde_json::Value`. What it makes of a text
/// depends on the text alone; `parsed_text` is the name of that result.
#[verifier::external_body]
fn value_from_text(text: &str) -> (r: Result<Value, serde_json::Error>)
    ensures
        match r {
            Ok(value) => parsed_text(text@) == Some(value_content(value)),
            Err(_) => parsed_text(text@) is None,
        },
{
    serde_json::from_str::<Value>(text)
}

/// Hands the content of a `serde_json::Value` out as a `Json`, variant by
/// variant: `as_u64` and `as_i64` of `serde_json::Number` tell the integers,
/// and its `to_string` gives the text of any other number.
#[verifier::external_body]
fn json_from_value(value: &Value) -> (doc: Json)
    ensures
        doc@ == value_content(*value),
{
    match value {
        Value::Null => Json::Null,
        Value::Bool(b) => Json::Bool(*b),
        Value::Number(n) => Json::Number(match (n.as_u64(), n.as_i64()) {
            (Some(u), _) => Number::Unsigned(u),
            (_, Some(i)) => Number::Signed(i),
            _ => Number::Real(n.to_string()),
        }),
        Value::String(s) => Json::Str(s.clone()),
        Value::Array(a) => Json::Array(a.iter().map(json_from_value).collect()),
        Value::Object(o) => Json::Object(
            o.iter().map(|(k, v)| Member { key: k.clone(), value: json_from_value(v) }).collect(),
        ),
    }
}

/// Builds the `serde_json::Value` for a `Json`, variant by variant. The text
/// of a `Number::Real` goes through `serde_json::Number`'s `from_str`, and a
/// text that it rejects becomes `null`. The members of an object are
/// collected into a `serde_json::Map`. What the value then prints as
/// depends on the content of the `Json` alone; `rendered_text` is the name
/// of that text.
#[verifier::external_body]
fn value_from_json(doc: &Json) -> (value: Value)
    ensures
        value_text(value) == rendered_text(doc@),
{
    match doc {
        Json::Null => Value::Null,
        Json::Bool(b) => Value::Bool(*b),
        Json::Number(Number::Unsigned(n)) => Value::from(*n),
        Json::Number(Number::Signed(n)) => Value::from(*n),
        Json::Number(Number::Real(text)) => text.parse::<serde_json::Number>().map_or(
            Value::Null,
            Value::Number,
        ),
        Json::Str(s) => Value::String(s.clone()),
        Json::Array(a) => Value::Array(a.iter().map(value_from_json).collect()),
        Json::Object(ms) => Value::Object(
            ms.iter().map(|m| (m.key.clone(), value_from_json(&m.value))).collect(),
        ),
    }
}

/// `to_string` of `serde_json::Value`: the compact text of the value.
#[verifier::external_body]
fn text_from_value(value: &Value) -> (text: String)
    ensures
        text@ == value_text(*value),
{
    value.to_string()
}

/// Reads a JSON document from `text`, or returns `None` where `text` is not
/// one.
pub fn parse(text: &str) -> (r: Option<Json>)
    ensures
        match r {
            Some(doc) => parsed_text(text@) == Some(doc@),
            None => parsed_text(text@) is None,
        },
{
    match value_from_text(text) {
        Ok(value) => Some(json_from_value(&value)),
        Err(_) => None,
    }
}

/// Writes `doc` as compact JSON text.
pub fn render(doc: &Json) -> (text: String)
    ensures
        text@ == rendered_text(doc@),
{
    let value = value_from_json(doc);
    text_from_value(&value)
}

} // verus!
