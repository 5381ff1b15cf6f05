//! Records in JSON: an object with named fields, or an array with the fields in order.

use crate::json;
use crate::json::{Json, JsonV};
use vstd::prelude::*;

verus! {

broadcast use {crate::json::lemma_array_view, crate::json::lemma_object_view};

/// The value can stand for a record of that many fields.
pub open spec fn is_record(j: JsonV, width: nat) -> bool {
    match j {
        JsonV::Object(_) => true,
        JsonV::Array(a) => a.len() <= width,
        _ => false,
    }
}

/// The field with that name, or at that place where the record is an array.
pub open spec fn field(j: JsonV, k: Seq<char>, i: int) -> Option<JsonV> {
    match j {
        JsonV::Array(a) => if 0 <= i < a.len() {
            Some(a[i])
        } else {
            None
        },
        _ => j.get(k),
    }
}

/// A text that has to be there.
pub open spec fn required_text(f: Option<JsonV>) -> Option<Seq<char>> {
    match f {
        Some(j) => j.as_str(),
        None => None,
    }
}

/// A text that is empty where the field is missing.
pub open spec fn default_text(f: Option<JsonV>) -> Option<Seq<char>> {
    match f {
        Some(j) => j.as_str(),
        None => Some(Seq::empty()),
    }
}

/// A text that may be missing or null.
pub open spec fn optional_text(f: Option<JsonV>) -> Option<Option<Seq<char>>> {
    match f {
        None => Some(None),
        Some(JsonV::Null) => Some(None),
        Some(JsonV::Str(s)) => Some(Some(s)),
        _ => None,
    }
}

/// A 32-bit number that may be missing or null.
pub open spec fn optional_u32(f: Option<JsonV>) -> Option<Option<u32>> {
    match f {
        None => Some(None),
        Some(JsonV::Null) => Some(None),
        Some(JsonV::UInt(n)) => if n <= u32::MAX {
            Some(Some(n as u32))
        } else {
            None
        },
        _ => None,
    }
}

/// A 64-bit number that is zero where the field is missing.
pub open spec fn default_u64(f: Option<JsonV>) -> Option<u64> {
    match f {
        Some(j) => j.as_u64(),
        None => Some(0),
    }
}

impl Json {
    pub fn is_record(&self, width: usize) -> (r: bool)
        ensures
            r == is_record(self@, width as nat),
    {
        match self {
            Json::Object(_) => true,
            Json::Array(a) => a.len() <= width,
            _ => false,
        }
    }

    pub fn field(&self, key: &str, i: usize) -> (r: Option<&Json>)
        ensures
            match r {
                Some(x) => field(self@, key@, i as int) == Some(x@),
                None => field(self@, key@, i as int) is None,
            },
    {
        match self {
            Json::Array(a) => if i < a.len() {
                Some(&a[i])
            } else {
                None
            },
            _ => self.get(key),
        }
    }

    pub fn required_text(&self, key: &str, i: usize) -> (r: Option<String>)
        ensures
            crate::text::opt_text(r) == required_text(field(self@, key@, i as int)),
    {
        match self.field(key, i) {
            Some(x) => match x.as_str() {
                Some(s) => Some(s.to_owned()),
                None => None,
            },
            None => None,
        }
    }

    pub fn default_text(&self, key: &str, i: usize) -> (r: Option<String>)
        ensures
            crate::text::opt_text(r) == default_text(field(self@, key@, i as int)),
    {
        match self.field(key, i) {
            Some(x) => match x.as_str() {
                Some(s) => Some(s.to_owned()),
                None => None,
            },
            None => Some(String::new()),
        }
    }

    pub fn optional_text(&self, key: &str, i: usize) -> (r: Option<Option<String>>)
        ensures
            match r {
                Some(t) => optional_text(field(self@, key@, i as int)) == Some(
                    crate::text::opt_text(t),
                ),
                None => optional_text(field(self@, key@, i as int)) is None,
            },
    {
        match self.field(key, i) {
            Some(Json::Null) => Some(None),
            Some(Json::Str(s)) => Some(Some(s.clone())),
            Some(_) => None,
            None => Some(None),
        }
    }

    pub fn optional_u32(&self, key: &str, i: usize) -> (r: Option<Option<u32>>)
        ensures
            r == optional_u32(field(self@, key@, i as int)),
    {
        match self.field(key, i) {
            Some(Json::Null) => Some(None),
            Some(x) => match x.as_u64() {
                Some(n) => if n <= u32::MAX as u64 {
                    Some(Some(n as u32))
                } else {
                    None
                },
                None => None,
            },
            None => Some(None),
        }
    }

    pub fn default_u64(&self, key: &str, i: usize) -> (r: Option<u64>)
        ensures
            r == default_u64(field(self@, key@, i as int)),
    {
        match self.field(key, i) {
            Some(x) => x.as_u64(),
            None => Some(0),
        }
    }
}

// ---- laws ----

/// **A field is found by its name, or by its place where the record is a list.**
pub proof fn law_fields_are_found(j: Json, key: &str, i: usize, x: Option<&Json>, y: Option<&Json>)
    requires
        call_ensures(Json::field, (&j, key, i), x),
        call_ensures(Json::get, (&j, key), y),
    ensures
        j matches Json::Array(a) ==> (x is Some) == (i < a@.len()) && (i < a@.len() ==> x->0@
            == a@[i as int]@),
        !(j is Array) ==> (x is Some) == (y is Some) && (x is Some ==> x->0@ == y->0@),
{
    if let Json::Array(a) = j {
        assert(j@ == JsonV::Array(json::views(a@)));
    }
}

/// **A field is what it has to be**: one that is missing is empty, none or zero, or refused where it is
/// needed, and one of another kind is refused.
pub proof fn law_fields_are_what_they_have_to_be(
    j: Json,
    key: &str,
    i: usize,
    x: Option<&Json>,
    needed: Option<String>,
    text: Option<String>,
    maybe: Option<Option<String>>,
    small: Option<Option<u32>>,
    n: Option<u64>,
)
    requires
        call_ensures(Json::field, (&j, key, i), x),
        call_ensures(Json::required_text, (&j, key, i), needed),
        call_ensures(Json::default_text, (&j, key, i), text),
        call_ensures(Json::optional_text, (&j, key, i), maybe),
        call_ensures(Json::optional_u32, (&j, key, i), small),
        call_ensures(Json::default_u64, (&j, key, i), n),
    ensures
        x is None ==> needed is None && (text matches Some(t) && t@.len() == 0) && maybe == Some(
            Option::<String>::None,
        ) && small == Some(Option::<u32>::None) && n == Some(0u64),
        x matches Some(v) ==> (v@ matches JsonV::Str(s) ==> (needed matches Some(t) && t@ == s) && (
        text matches Some(t) && t@ == s) && (maybe matches Some(Some(t)) && t@ == s) && small
            is None && n is None),
        x matches Some(v) ==> (v@ matches JsonV::UInt(k) ==> needed is None && text is None && maybe
            is None && n == Some(k) && (k <= 0xffff_ffff ==> (small matches Some(Some(m)) && m
            == k)) && (k > 0xffff_ffff ==> small is None)),
        x matches Some(v) ==> (v@ is Null ==> needed is None && text is None && maybe == Some(
            Option::<String>::None,
        ) && small == Some(Option::<u32>::None) && n is None),
        x matches Some(v) ==> (v@ is Bool || v@ is Array || v@ is Object ==> needed is None && text
            is None && maybe is None && small is None && n is None),
{
}

} // verus!
