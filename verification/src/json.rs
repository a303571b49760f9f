//! JSON text, as `serde_json` writes it.
use serde_json::Value;
use vstd::prelude::*;

verus! {

/// `serde_json::Value`, a JSON value. It is opaque here: [`value_text`] is what is
/// known of one.
#[verifier::external_type_specification]
#[verifier::external_body]
pub struct ExValue(serde_json::Value);

/// The compact text that `to_string` gives for a JSON value.
pub uninterp spec fn value_text(v: serde_json::Value) -> Seq<char>;

/// Whether a JSON string holds `s` as it is: no quote, backslash or control
/// character, which alone are escaped.
pub open spec fn unescaped(s: Seq<char>) -> bool {
    forall|i: int| 0 <= i < s.len() ==> ' ' <= #[trigger] s[i] && s[i] != '"' && s[i] != '\\'
}

/// `s` in double quotes.
pub open spec fn quoted(s: Seq<char>) -> Seq<char> {
    seq!['"'] + s + seq!['"']
}

/// The texts of `items`, with a comma between each two.
pub open spec fn comma_separated(items: Seq<Seq<char>>) -> Seq<char>
    decreases items.len(),
{
    if items.len() == 0 {
        seq![]
    } else if items.len() == 1 {
        items[0]
    } else {
        comma_separated(items.drop_last()) + seq![','] + items.last()
    }
}

/// The text of a JSON array whose items have the texts `items`.
pub open spec fn array_text(items: Seq<Seq<char>>) -> Seq<char> {
    seq!['['] + comma_separated(items) + seq![']']
}

/// The text of a member of a JSON object: its key, and the text of its value.
pub open spec fn member_text(key: Seq<char>, value: Seq<char>) -> Seq<char> {
    quoted(key) + seq![':'] + value
}

/// The text of a JSON object whose members have the texts `members`.
pub open spec fn object_text(members: Seq<Seq<char>>) -> Seq<char> {
    seq!['{'] + comma_separated(members) + seq!['}']
}

/// Whether `a` comes before `b` in the order of strings: character by character, by
/// code point, a string after its proper prefixes.
pub open spec fn text_before(a: Seq<char>, b: Seq<char>) -> bool
    decreases a.len(),
{
    if b.len() == 0 {
        false
    } else if a.len() == 0 {
        true
    } else if a[0] != b[0] {
        a[0] < b[0]
    } else {
        text_before(a.drop_first(), b.drop_first())
    }
}

/// Whether each key comes before those that follow it.
pub open spec fn ascending_keys(fields: Seq<(String, Value)>) -> bool {
    forall|i: int, j: int|
        0 <= i < j < fields.len() ==> #[trigger] text_before(fields[i].0@, fields[j].0@)
}

/// Calls `to_string` of `serde_json::Value` and names its result.
#[verifier::external_body]
pub(crate) fn to_text(v: &Value) -> (r: String)
    ensures
        r@ == value_text(*v),
{
    v.to_string()
}

/// Makes a `serde_json::Value::Null`, whose text is `null`.
#[verifier::external_body]
pub(crate) fn null_value() -> (r: Value)
    ensures
        value_text(r) == "null"@,
{
    Value::Null
}

/// Makes a `serde_json::Value::String`. Its text is `s` in quotes where nothing in `s`
/// is to be escaped; the text of any other string is left open here.
#[verifier::external_body]
pub(crate) fn string_value(s: &str) -> (r: Value)
    ensures
        unescaped(s@) ==> value_text(r) == quoted(s@),
{
    Value::String(s.to_owned())
}

/// Makes a `serde_json::Value::Number` by `Value::from`. Its text is `n` in decimal.
#[verifier::external_body]
pub(crate) fn number_value(n: u32) -> (r: Value)
    ensures
        value_text(r) == crate::text::decimal(n as nat),
{
    Value::from(n)
}

/// Makes a `serde_json::Value::Array`, whose text lists the texts of its items in order.
#[verifier::external_body]
pub(crate) fn array_value(items: Vec<Value>) -> (r: Value)
    ensures
        value_text(r) == array_text(items@.map_values(|v: Value| value_text(v))),
{
    Value::Array(items)
}

/// Makes a `serde_json::Value::Object` by collecting `fields` into a `serde_json::Map`,
/// which keeps its members in the order of their keys. Of keys that come in ascending
/// order and need no escape, the text lists the members as they came.
#[verifier::external_body]
pub(crate) fn object_value(fields: Vec<(String, Value)>) -> (r: Value)
    requires
        ascending_keys(fields@),
        forall|i: int| 0 <= i < fields@.len() ==> unescaped(#[trigger] fields@[i].0@),
    ensures
        value_text(r) == object_text(
            fields@.map_values(|f: (String, Value)| member_text(f.0@, value_text(f.1))),
        ),
{
    Value::Object(fields.into_iter().collect())
}

} // verus!
