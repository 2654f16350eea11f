//! The JSON text of a generic value, as serde_json writes it.
use vstd::prelude::*;
use crate::value::{GenericValue, Json};

verus! {

#[verifier::external_type_specification]
#[verifier::external_body]
pub struct ExJsonValue(serde_json::Value);

/// The compact JSON text that serde_json writes for a value.
pub uninterp spec fn json_text_of(v: Json) -> Seq<char>;

/// Copies a generic value into a serde_json value, entry for entry; a
/// number is read from its decimal text, and kept as a string where that
/// text is not a JSON number.
#[verifier::external_body]
fn json_from_generic(v: &GenericValue) -> serde_json::Value {
    match v {
        GenericValue::Null => serde_json::Value::Null,
        GenericValue::Bool(b) => serde_json::Value::Bool(*b),
        GenericValue::Number(n) => match n.parse::<serde_json::Number>() {
            Ok(x) => serde_json::Value::Number(x),
            Err(_) => serde_json::Value::String(n.clone()),
        },
        GenericValue::Str(s) => serde_json::Value::String(s.clone()),
        GenericValue::Array(a) => serde_json::Value::Array(a.iter().map(json_from_generic).collect()),
        GenericValue::Object(m) => serde_json::Value::Object(
            m.iter().map(|(k, x)| (k.clone(), json_from_generic(x))).collect(),
        ),
    }
}

/// Relies on serde_json::to_string: the JSON text of a value, which
/// depends on the value alone. Writing a serde_json value cannot fail, as
/// its keys are strings.
#[verifier::external_body]
pub(crate) fn json_text(v: &GenericValue) -> (r: String)
    ensures
        r@ == json_text_of(v@),
{
    match serde_json::to_string(&json_from_generic(v)) {
        Ok(s) => s,
        Err(_) => String::new(),
    }
}

} // verus!
