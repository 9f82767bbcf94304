use vstd::prelude::*;

verus! {

/// A JSON document.
#[derive(Debug)]
pub enum JsonValue {
    Null,
    Bool(bool),
    /// The integer that the number is, where it is one and fits `i64`.
    Number(Option<i64>),
    Text(String),
    Array(Vec<JsonValue>),
    /// The members of the object, each key once.
    Object(Vec<(String, JsonValue)>),
}

/// The place at which a text stops being JSON: the line, counted from one,
/// and the column within it.
#[derive(Clone, Copy, Debug, PartialEq, Eq, Structural)]
pub struct SyntaxError {
    pub line: usize,
    pub column: usize,
}

/// What `serde_json::from_str` makes of a text: the document, or the place
/// at which the text stops being one.
pub uninterp spec fn json_parse(text: Seq<char>) -> Result<JsonValue, SyntaxError>;

/// The text that `serde_json::to_string` writes for an object with the given
/// members, each value a JSON string.
pub uninterp spec fn json_object_text(members: Seq<(Seq<char>, Seq<char>)>) -> Seq<char>;

#[verifier::external_type_specification]
#[verifier::external_body]
pub struct ExValue(serde_json::Value);

/// Copies a `serde_json::Value` into a `JsonValue`, variant by variant; of a
/// number it keeps what `serde_json::Number::as_i64` gives.
#[verifier::external_body]
fn lift(value: &serde_json::Value) -> JsonValue {
    match value {
        serde_json::Value::Null => JsonValue::Null,
        serde_json::Value::Bool(b) => JsonValue::Bool(*b),
        serde_json::Value::Number(n) => JsonValue::Number(n.as_i64()),
        serde_json::Value::String(s) => JsonValue::Text(s.clone()),
        serde_json::Value::Array(a) => JsonValue::Array(a.iter().map(lift).collect()),
        serde_json::Value::Object(o) => JsonValue::Object(
            o.iter().map(|(k, v)| (k.clone(), lift(v))).collect(),
        ),
    }
}

/// `serde_json::from_str` into a `serde_json::Value`: the document that the
/// text holds, or the line and column at which it stops being JSON.
#[verifier::external_body]
pub(crate) fn parse(text: &str) -> (r: Result<JsonValue, SyntaxError>)
    ensures
        r == json_parse(text@),
{
    match serde_json::from_str::<serde_json::Value>(text) {
        Ok(value) => Ok(lift(&value)),
        Err(e) => Err(SyntaxError { line: e.line(), column: e.column() }),
    }
}

/// `serde_json::to_string` of the object whose members are the given pairs,
/// each value a JSON string.
#[verifier::external_body]
pub(crate) fn object_text(members: &Vec<(String, String)>) -> (r: String)
    ensures
        r@ == json_object_text(members.deep_view()),
{
    let object: serde_json::Map<String, serde_json::Value> = members.iter().map(
        |(k, v)| (k.clone(), serde_json::Value::String(v.clone())),
    ).collect();
    match serde_json::to_string(&object) {
        Ok(text) => text,
        Err(_) => String::new(),
    }
}

/// The value of the first member from position `from` on that has the key.
pub open spec fn member_from(members: Seq<(String, JsonValue)>, key: Seq<char>, from: int) -> Option<
    JsonValue,
>
    decreases members.len() - from,
{
    if from < 0 || from >= members.len() {
        None
    } else if members[from].0@ == key {
        Some(members[from].1)
    } else {
        member_from(members, key, from + 1)
    }
}

/// The value that an object holds under a key.
pub open spec fn member(members: Seq<(String, JsonValue)>, key: Seq<char>) -> Option<JsonValue> {
    member_from(members, key, 0)
}

/// The value that an object holds under a key.
pub fn find_member<'a>(members: &'a Vec<(String, JsonValue)>, key: &str) -> (r: Option<
    &'a JsonValue,
>)
    ensures
        match r {
            Some(value) => member(members@, key@) == Some(*value),
            None => member(members@, key@) is None,
        },
{
    let mut i: usize = 0;
    while i < members.len()
        invariant
            i <= members.len(),
            member(members@, key@) == member_from(members@, key@, i as int),
        decreases members.len() - i,
    {
        if members[i].0.as_str().eq(key) {
            return Some(&members[i].1);
        }
        i += 1;
    }
    None
}

} // verus!
