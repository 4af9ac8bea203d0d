//! Decoding the wire text into the adapter's document model.
//!
//! serde_json does the actual JSON parsing; each call into it stands
//! behind a small trusted item. Two names tie the boundary together:
//! [`parsed_of`], the document a text parses to, and [`value_model`],
//! the adapter's model of one parsed value. The decoder that walks the
//! parsed value is verified to reproduce that model exactly.

use vstd::prelude::*;
use crate::json::{Json, JsonValue, fits_depth, lemma_arr_models, lemma_obj_models, models_of,
    pair_models_of};

verus! {

#[verifier::external_type_specification]
#[verifier::external_body]
pub struct ExValue(serde_json::Value);

/// The document that serde_json::from_str yields for `text` — the parse
/// is a function of the text alone — and `None` exactly when the text
/// is not valid JSON.
pub uninterp spec fn parsed_of(text: Seq<char>) -> Option<Json>;

/// The adapter's model of one parsed serde_json::Value: what the
/// accessors below show of it. A JSON number outside the unsigned
/// 64-bit range models as `Null`, as the decoder documents.
pub uninterp spec fn value_model(v: serde_json::Value) -> Json;

/// The models of a list of parsed values, element by element.
pub open spec fn value_models_of(items: Seq<serde_json::Value>) -> Seq<Json> {
    Seq::new(
        items.len(),
        |i: int|
            if 0 <= i < items.len() {
                value_model(items[i])
            } else {
                Json::Null
            },
    )
}

/// The models of a list of parsed object entries, element by element.
pub open spec fn entry_models_of(entries: Seq<(String, serde_json::Value)>) -> Seq<
    (Seq<char>, Json),
> {
    Seq::new(
        entries.len(),
        |i: int|
            if 0 <= i < entries.len() {
                (entries[i].0@, value_model(entries[i].1))
            } else {
                (Seq::empty(), Json::Null)
            },
    )
}

/// Relies on serde_json::from_str: parses one JSON document from text,
/// `None` when the text is not valid JSON. The parser's recursion limit
/// of 128 bounds the nesting of any value it yields.
#[verifier::external_body]
fn parse_text(text: &str) -> (r: Option<serde_json::Value>)
    ensures
        r matches Some(v) ==> parsed_of(text@) == Some(value_model(v)),
        r matches Some(v) ==> fits_depth(value_model(v), 128),
        r is None ==> parsed_of(text@) is None,
{
    serde_json::from_str::<serde_json::Value>(text).ok()
}

/// Relies on serde_json::Value::as_bool: `Some` exactly when the value
/// is a JSON boolean.
#[verifier::external_body]
fn value_as_bool(v: &serde_json::Value) -> (r: Option<bool>)
    ensures
        (r is Some) == (value_model(*v) is Bool),
        r matches Some(b) ==> value_model(*v) == Json::Bool(b),
{
    v.as_bool()
}

/// Relies on serde_json::Value::as_u64: `Some` exactly when the value is
/// a JSON number representable as an unsigned 64-bit integer.
#[verifier::external_body]
fn value_as_u64(v: &serde_json::Value) -> (r: Option<u64>)
    ensures
        (r is Some) == (value_model(*v) is Num),
        r matches Some(n) ==> value_model(*v) == Json::Num(n),
{
    v.as_u64()
}

/// Relies on serde_json::Value::as_str: `Some` exactly when the value is
/// a JSON string; the string is handed out as an owned copy.
#[verifier::external_body]
fn value_as_string(v: &serde_json::Value) -> (r: Option<String>)
    ensures
        (r is Some) == (value_model(*v) is Str),
        r matches Some(s) ==> value_model(*v) == Json::Str(s@),
{
    v.as_str().map(|s| s.to_owned())
}

/// Relies on serde_json::Value::as_array: `Some` exactly when the value
/// is a JSON array.
#[verifier::external_body]
fn value_as_array(v: &serde_json::Value) -> (r: Option<&Vec<serde_json::Value>>)
    ensures
        (r is Some) == (value_model(*v) is Arr),
        r matches Some(items) ==> value_model(*v) == Json::Arr(value_models_of(items@)),
{
    v.as_array()
}

/// Relies on serde_json::Value::as_object: `Some` exactly when the value
/// is a JSON object; the entries are handed out as owned key/value
/// pairs, in the order the object's map iterates them — the same order
/// every time, so the object's model lists them in that order.
#[verifier::external_body]
fn value_object_entries(v: &serde_json::Value) -> (r: Option<Vec<(String, serde_json::Value)>>)
    ensures
        (r is Some) == (value_model(*v) is Obj),
        r matches Some(entries) ==> value_model(*v) == Json::Obj(entry_models_of(entries@)),
{
    v.as_object().map(|m| m.iter().map(|(k, x)| (k.clone(), x.clone())).collect())
}

/// Greatest nesting depth the decoder follows: serde_json's own
/// recursion limit, which no parsed value exceeds, so the cut below is
/// never reached on a parsed value.
const MAX_DEPTH: u64 = 128;

/// Rebuild a parsed value as a [`JsonValue`]: exactly its model, for any
/// value nesting no deeper than `depth`.
///
/// JSON numbers outside the unsigned 64-bit range (negative or
/// fractional) decode as `Null`: the adapter reads no numeric field, so
/// nothing is lost. Values nested deeper than `depth` decode as `Null`.
fn decode_value(v: &serde_json::Value, depth: u64) -> (r: JsonValue)
    ensures
        fits_depth(value_model(*v), depth as nat) ==> r@ == value_model(*v),
    decreases depth,
{
    let ghost m = value_model(*v);
    if let Some(s) = value_as_string(v) {
        return JsonValue::Str(s);
    }
    if let Some(b) = value_as_bool(v) {
        return JsonValue::Bool(b);
    }
    if let Some(n) = value_as_u64(v) {
        return JsonValue::Num(n);
    }
    if depth == 0 {
        return JsonValue::Null;
    }
    if let Some(items) = value_as_array(v) {
        let ghost vm = value_models_of(items@);
        let mut out: Vec<JsonValue> = Vec::new();
        let n = items.len();
        let mut i: usize = 0;
        while i < n
            invariant
                n == items.len(),
                0 <= i <= n,
                depth >= 1,
                m == value_model(*v),
                m == Json::Arr(vm),
                vm == value_models_of(items@),
                vm.len() == n,
                out@.len() == i,
                fits_depth(m, depth as nat) ==> forall|j: int| 0 <= j < i ==> #[trigger] out@[j]@
                    == vm[j],
            decreases n - i,
        {
            proof {
                if fits_depth(m, depth as nat) {
                    crate::json::lemma_fits_depth_arr(m, depth as nat, i as int);
                    assert(vm[i as int] == value_model(items@[i as int]));
                }
            }
            let decoded = decode_value(&items[i], depth - 1);
            out.push(decoded);
            i += 1;
        }
        proof {
            lemma_arr_models(out);
            if fits_depth(m, depth as nat) {
                assert(models_of(out@) =~= vm);
            }
        }
        return JsonValue::Arr(out);
    }
    if let Some(entries) = value_object_entries(v) {
        let ghost em = entry_models_of(entries@);
        let mut out: Vec<(String, JsonValue)> = Vec::new();
        let n = entries.len();
        let mut i: usize = 0;
        while i < n
            invariant
                n == entries.len(),
                0 <= i <= n,
                depth >= 1,
                m == value_model(*v),
                m == Json::Obj(em),
                em == entry_models_of(entries@),
                em.len() == n,
                out@.len() == i,
                forall|j: int| 0 <= j < i ==> #[trigger] out@[j].0@ == em[j].0,
                fits_depth(m, depth as nat) ==> forall|j: int| 0 <= j < i ==> #[trigger] out@[j].1@
                    == em[j].1,
            decreases n - i,
        {
            proof {
                if fits_depth(m, depth as nat) {
                    crate::json::lemma_fits_depth_obj(m, depth as nat, i as int);
                }
                assert(em[i as int] == (entries@[i as int].0@, value_model(entries@[i as int].1)));
            }
            let decoded = decode_value(&entries[i].1, depth - 1);
            out.push((entries[i].0.clone(), decoded));
            i += 1;
        }
        proof {
            lemma_obj_models(out);
            if fits_depth(m, depth as nat) {
                assert(pair_models_of(out@) =~= em);
            }
        }
        return JsonValue::Obj(out);
    }
    JsonValue::Null
}

/// Parse a JSON text into the adapter's document model: exactly the
/// document the text parses to, `None` exactly when the text is not
/// valid JSON.
pub fn parse_document(text: &str) -> (r: Option<JsonValue>)
    ensures
        r matches Some(doc) ==> parsed_of(text@) == Some(doc@),
        (r is None) == (parsed_of(text@) is None),
{
    match parse_text(text) {
        Some(v) => Some(decode_value(&v, MAX_DEPTH)),
        None => None,
    }
}

} // verus!
