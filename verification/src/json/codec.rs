//! JSON documents as text.

use crate::json::{Json, JsonV};
use vstd::prelude::*;

verus! {

/// A number that is not a 64-bit integer. It is carried, never read: only the parser makes one, and
/// only of a number that has no integer form.
#[derive(Debug)]
pub struct Fraction {
    number: serde_json::Number,
}

/// What a value that `serde_json` holds means.
pub uninterp spec fn value_json(v: serde_json::Value) -> JsonV;

/// What `serde_json::from_str` makes of a text: a value, or the message of its error.
pub uninterp spec fn json_of_text(s: Seq<char>) -> Result<JsonV, Seq<char>>;

/// The text is a document for that value.
pub open spec fn reads_as(s: Seq<char>, v: JsonV) -> bool {
    json_of_text(s) matches Ok(j) && j == v
}

/// The text that `serde_json::to_string` writes for a value.
pub uninterp spec fn compact_text(v: JsonV) -> Seq<char>;

/// The text that `serde_json::to_string_pretty` writes for a value.
pub uninterp spec fn pretty_text(v: JsonV) -> Seq<char>;

/// The value is nested at most `depth` deep and holds no number but 64-bit integers, so that a
/// parser with that depth limit reads its text back without loss.
pub open spec fn readable(v: JsonV, depth: nat) -> bool
    decreases depth,
{
    match v {
        JsonV::Float(_) => false,
        JsonV::NegInt(n) => n < 0,
        JsonV::Array(a) => depth > 0 && forall|i: int|
            0 <= i < a.len() ==> readable(#[trigger] a[i], (depth - 1) as nat),
        JsonV::Object(m) => depth > 0 && m.dom().finite() && forall|k: Seq<char>| #[trigger]
            m.dom().contains(k) ==> readable(m[k], (depth - 1) as nat),
        _ => true,
    }
}

/// How deep a document may be nested for `serde_json::from_str` to read it.
pub open spec fn depth_limit() -> nat {
    127
}

/// An object stays readable when a readable member is set.
pub proof fn lemma_put_readable(o: JsonV, k: Seq<char>, v: JsonV, depth: nat)
    requires
        depth > 0,
        o is Object,
        readable(o, depth),
        readable(v, (depth - 1) as nat),
    ensures
        readable(o.put(k, v), depth),
{
    let m = o->Object_0;
    let n = m.insert(k, v);
    assert forall|x: Seq<char>| #[trigger] n.dom().contains(x) implies readable(
        n[x],
        (depth - 1) as nat,
    ) by {
        if x != k {
            assert(m.dom().contains(x));
        }
    }
}

/// A greater depth limit reads no less.
pub proof fn lemma_readable_deeper(v: JsonV, d: nat, e: nat)
    requires
        d <= e,
        readable(v, d),
    ensures
        readable(v, e),
    decreases d,
{
    match v {
        JsonV::Array(a) => {
            assert forall|i: int| 0 <= i < a.len() implies readable(
                #[trigger] a[i],
                (e - 1) as nat,
            ) by {
                lemma_readable_deeper(a[i], (d - 1) as nat, (e - 1) as nat);
            }
        },
        JsonV::Object(m) => {
            assert forall|k: Seq<char>| #[trigger] m.dom().contains(k) implies readable(
                m[k],
                (e - 1) as nat,
            ) by {
                lemma_readable_deeper(m[k], (d - 1) as nat, (e - 1) as nat);
            }
        },
        _ => {},
    }
}

/// Calls `serde_json::from_str` for a `serde_json::Value`. The result is named; nothing else is
/// claimed of the grammar.
#[verifier::external_body]
fn value_of_text(s: &str) -> (r: Result<serde_json::Value, String>)
    ensures
        match r {
            Ok(v) => json_of_text(s@) matches Ok(j) && j == value_json(v),
            Err(e) => json_of_text(s@) matches Err(m) && m == e@,
        },
{
    match serde_json::from_str::<serde_json::Value>(s) {
        Ok(v) => Ok(v),
        Err(e) => Err(e.to_string()),
    }
}

/// Takes a `serde_json::Value` apart, variant by variant. A number is told apart by
/// `Number::as_u64` and `Number::as_i64`; `serde_json::Map` hands out each name once.
#[verifier::external_body]
fn json_of_value(v: serde_json::Value) -> (r: Json)
    ensures
        r@ == value_json(v),
{
    match v {
        serde_json::Value::Null => Json::Null,
        serde_json::Value::Bool(b) => Json::Bool(b),
        serde_json::Value::Number(n) => match (n.as_u64(), n.as_i64()) {
            (Some(u), _) => Json::UInt(u),
            (None, Some(i)) => Json::NegInt(i),
            (None, None) => Json::Float(Fraction { number: n }),
        },
        serde_json::Value::String(s) => Json::Str(s),
        serde_json::Value::Array(a) => Json::Array(a.into_iter().map(json_of_value).collect()),
        serde_json::Value::Object(m) =>
            Json::Object(m.into_iter().map(|(k, x)| (k, json_of_value(x))).collect()),
    }
}

/// Builds a `serde_json::Value`, variant by variant. Collecting into a `serde_json::Map` keeps the
/// last value of a name.
#[verifier::external_body]
fn value_of_json(j: &Json) -> (r: serde_json::Value)
    ensures
        value_json(r) == j@,
{
    match j {
        Json::Null => serde_json::Value::Null,
        Json::Bool(b) => serde_json::Value::Bool(*b),
        Json::UInt(n) => serde_json::Value::from(*n),
        Json::NegInt(n) => serde_json::Value::from(*n),
        Json::Float(f) => serde_json::Value::Number(f.number.clone()),
        Json::Str(s) => serde_json::Value::String(s.clone()),
        Json::Array(a) => serde_json::Value::Array(a.iter().map(value_of_json).collect()),
        Json::Object(o) =>
            serde_json::Value::Object(o.iter().map(|(k, x)| (k.clone(), value_of_json(x))).collect()),
    }
}

/// Calls `serde_json::to_string`, which does not fail on a `serde_json::Value`. What it writes is
/// named; a value without other numbers than 64-bit integers, and within the depth limit of the
/// parser, is read back from it.
#[verifier::external_body]
fn compact_of_value(v: &serde_json::Value) -> (r: String)
    ensures
        r@ == compact_text(value_json(*v)),
        readable(value_json(*v), depth_limit()) ==> reads_as(r@, value_json(*v)),
{
    serde_json::to_string(v).expect("a value with string keys")
}

/// Calls `serde_json::to_string_pretty`, which does not fail on a `serde_json::Value`. What it
/// writes is named and, as with the compact form, read back.
#[verifier::external_body]
fn pretty_of_value(v: &serde_json::Value) -> (r: String)
    ensures
        r@ == pretty_text(value_json(*v)),
        readable(value_json(*v), depth_limit()) ==> reads_as(r@, value_json(*v)),
{
    serde_json::to_string_pretty(v).expect("a value with string keys")
}

impl Json {
    /// Reads a document; the error is the parser's message.
    pub fn parse(s: &str) -> (r: Result<Json, String>)
        ensures
            match r {
                Ok(j) => reads_as(s@, j@),
                Err(e) => json_of_text(s@) matches Err(m) && m == e@,
            },
    {
        match value_of_text(s) {
            Ok(v) => Ok(json_of_value(v)),
            Err(e) => Err(e),
        }
    }

    /// Writes the document on one line.
    pub fn to_text(&self) -> (r: String)
        ensures
            r@ == compact_text(self@),
            readable(self@, depth_limit()) ==> reads_as(r@, self@),
    {
        compact_of_value(&value_of_json(self))
    }

    /// Writes the document with one member or element to a line.
    pub fn to_pretty(&self) -> (r: String)
        ensures
            r@ == pretty_text(self@),
            readable(self@, depth_limit()) ==> reads_as(r@, self@),
    {
        pretty_of_value(&value_of_json(self))
    }
}

} // verus!
