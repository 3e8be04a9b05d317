use vstd::prelude::*;

verus! {

/// A JSON value, holding exactly what the schema logic reads of one.
///
/// A number is kept as its decimal text, an array keeps both its elements
/// and the bracketed debug text its source rendering would print, since a
/// default value that is an array is shown by that text.
#[derive(Debug, PartialEq, Eq)]
pub enum Json {
    Null,
    Bool(bool),
    /// The number's decimal text form.
    Num(String),
    Str(String),
    /// The element values, and the bracketed debug text of the whole array.
    Arr(Vec<Json>, String),
    /// The object's fields in source order of the parsed map.
    Obj(Vec<(String, Json)>),
}

#[verifier::external_type_specification]
#[verifier::external_body]
pub struct ExValue(serde_json::Value);

/// What parsing a text as JSON yields: `None` where the text is not a
/// single valid JSON value, otherwise the parsed tree. The outcome is a
/// function of the text alone.
pub uninterp spec fn json_of_text(s: Seq<char>) -> Option<Json>;

/// Relies on serde_json::Value's six variants, on Number's Display text
/// and on the Debug rendering of a vector of values: moves one parsed
/// variant into `Json`, field for field.
#[verifier::external_body]
fn json_of_value(v: serde_json::Value) -> Json {
    match v {
        serde_json::Value::Null => Json::Null,
        serde_json::Value::Bool(b) => Json::Bool(b),
        serde_json::Value::Number(n) => Json::Num(n.to_string()),
        serde_json::Value::String(s) => Json::Str(s),
        serde_json::Value::Array(a) => {
            let text = format!("{:?}", a);
            Json::Arr(a.into_iter().map(json_of_value).collect(), text)
        }
        serde_json::Value::Object(m) => {
            Json::Obj(m.into_iter().map(|(k, val)| (k, json_of_value(val))).collect())
        }
    }
}

/// Relies on serde_json::from_str::<serde_json::Value>: parses a text as
/// one JSON value; success and the resulting tree depend on the text alone.
#[verifier::external_body]
pub(crate) fn parse_json(s: &str) -> (r: Option<Json>)
    ensures
        r == json_of_text(s@),
{
    match serde_json::from_str::<serde_json::Value>(s) {
        Ok(v) => Some(json_of_value(v)),
        Err(_) => None,
    }
}

} // verus!
