//! JSON values: a document is read once, edited in place and written back, so that everything the
//! library does not know about stays as it was.

use crate::json::codec::Fraction;
use vstd::prelude::*;

pub mod access;
pub mod codec;
pub mod record;

verus! {

/// A number as `serde_json` holds it.
#[verifier::external_type_specification]
#[verifier::external_body]
pub struct ExNumber(serde_json::Number);

/// A parsed document as `serde_json` holds it.
#[verifier::external_type_specification]
#[verifier::external_body]
pub struct ExValue(serde_json::Value);

/// A JSON value. An object lists its members; where a name occurs twice the last one counts.
#[derive(Debug)]
pub enum Json {
    Null,
    Bool(bool),
    UInt(u64),
    NegInt(i64),
    Float(Fraction),
    Str(String),
    Array(Vec<Json>),
    Object(Vec<(String, Json)>),
}

/// What a JSON value means: an object is a map from names to values, and an integer has one form.
pub enum JsonV {
    Null,
    Bool(bool),
    UInt(u64),
    NegInt(i64),
    Float(Fraction),
    Str(Seq<char>),
    Array(Seq<JsonV>),
    Object(Map<Seq<char>, JsonV>),
}

/// The map that a list of members stands for.
pub open spec fn members(s: Seq<(Seq<char>, JsonV)>) -> Map<Seq<char>, JsonV>
    decreases s.len(),
{
    if s.len() == 0 {
        Map::empty()
    } else {
        members(s.drop_last()).insert(s.last().0, s.last().1)
    }
}

impl View for Json {
    type V = JsonV;

    open spec fn view(&self) -> JsonV
        decreases self,
    {
        match self {
            Json::Null => JsonV::Null,
            Json::Bool(b) => JsonV::Bool(*b),
            Json::UInt(n) => JsonV::UInt(*n),
            Json::NegInt(n) => if *n < 0 {
                JsonV::NegInt(*n)
            } else {
                JsonV::UInt(*n as u64)
            },
            Json::Float(n) => JsonV::Float(*n),
            Json::Str(s) => JsonV::Str(s@),
            Json::Array(a) => JsonV::Array(
                Seq::new(
                    a@.len(),
                    |i: int|
                        if 0 <= i < a@.len() {
                            a@[i].view()
                        } else {
                            JsonV::Null
                        },
                ),
            ),
            Json::Object(o) => JsonV::Object(
                members(
                    Seq::new(
                        o@.len(),
                        |i: int|
                            if 0 <= i < o@.len() {
                                (o@[i].0@, o@[i].1.view())
                            } else {
                                (Seq::empty(), JsonV::Null)
                            },
                    ),
                ),
            ),
        }
    }
}

/// The meanings of the elements of an array.
pub open spec fn views(s: Seq<Json>) -> Seq<JsonV> {
    Seq::new(s.len(), |i: int| s[i]@)
}

/// The meanings of the members of an object.
pub open spec fn pair_views(s: Seq<(String, Json)>) -> Seq<(Seq<char>, JsonV)> {
    Seq::new(s.len(), |i: int| (s[i].0@, s[i].1@))
}

pub broadcast proof fn lemma_array_view(a: Vec<Json>)
    ensures
        #[trigger] Json::Array(a)@ == JsonV::Array(views(a@)),
{
    reveal_with_fuel(<Json as View>::view, 2);
    assert(Json::Array(a)@->Array_0 =~= views(a@));
}

pub broadcast proof fn lemma_object_view(o: Vec<(String, Json)>)
    ensures
        #[trigger] Json::Object(o)@ == JsonV::Object(members(pair_views(o@))),
{
    reveal_with_fuel(<Json as View>::view, 2);
    assert(exists|s: Seq<(Seq<char>, JsonV)>| #[trigger]
        members(s) == Json::Object(o)@->Object_0 && s =~= pair_views(o@));
}

/// A name that occurs at `i` and not after it is in the map with the value at `i`.
pub proof fn lemma_members_last(s: Seq<(Seq<char>, JsonV)>, i: int)
    requires
        0 <= i < s.len(),
        forall|j: int| i < j < s.len() ==> s[j].0 != s[i].0,
    ensures
        members(s).dom().contains(s[i].0),
        members(s)[s[i].0] == s[i].1,
    decreases s.len(),
{
    if i < s.len() - 1 {
        lemma_members_last(s.drop_last(), i);
    }
}

/// A name that occurs nowhere is not in the map.
pub proof fn lemma_members_absent(s: Seq<(Seq<char>, JsonV)>, k: Seq<char>)
    requires
        forall|j: int| 0 <= j < s.len() ==> s[j].0 != k,
    ensures
        !members(s).dom().contains(k),
    decreases s.len(),
{
    if s.len() > 0 {
        lemma_members_absent(s.drop_last(), k);
    }
}

/// Replacing the value at the last place of a name replaces it in the map.
pub proof fn lemma_members_update(s: Seq<(Seq<char>, JsonV)>, i: int, v: JsonV)
    requires
        0 <= i < s.len(),
        forall|j: int| i < j < s.len() ==> s[j].0 != s[i].0,
    ensures
        members(s.update(i, (s[i].0, v))) == members(s).insert(s[i].0, v),
    decreases s.len(),
{
    let t = s.update(i, (s[i].0, v));
    if i < s.len() - 1 {
        lemma_members_update(s.drop_last(), i, v);
        assert(t.drop_last() =~= s.drop_last().update(i, (s[i].0, v)));
        assert(members(t) =~= members(s).insert(s[i].0, v));
    } else {
        assert(t.drop_last() =~= s.drop_last());
        assert(members(t) =~= members(s).insert(s[i].0, v));
    }
}

/// Replacing the value at the last place of a name, on the level of the members themselves.
pub proof fn lemma_pairs_update(o: Seq<(String, Json)>, i: int)
    requires
        0 <= i < o.len(),
        forall|j: int| i < j < o.len() ==> o[j].0@ != o[i].0@,
    ensures
        forall|p: (String, Json)|
            p.0 == o[i].0 ==> #[trigger] members(pair_views(o.update(i, p))) == members(
                pair_views(o),
            ).insert(o[i].0@, p.1@),
{
    assert forall|p: (String, Json)| p.0 == o[i].0 implies #[trigger] members(
        pair_views(o.update(i, p)),
    ) == members(pair_views(o)).insert(o[i].0@, p.1@) by {
        lemma_members_update(pair_views(o), i, p.1@);
        assert(pair_views(o.update(i, p)) =~= pair_views(o).update(i, (o[i].0@, p.1@)));
    }
}

impl JsonV {
    /// The member of that name, if this is an object that has one.
    pub open spec fn get(self, k: Seq<char>) -> Option<JsonV> {
        match self {
            JsonV::Object(m) => if m.dom().contains(k) {
                Some(m[k])
            } else {
                None
            },
            _ => None,
        }
    }

    /// The object with that member set.
    pub open spec fn put(self, k: Seq<char>, v: JsonV) -> JsonV {
        match self {
            JsonV::Object(m) => JsonV::Object(m.insert(k, v)),
            _ => self,
        }
    }

    pub open spec fn as_str(self) -> Option<Seq<char>> {
        match self {
            JsonV::Str(s) => Some(s),
            _ => None,
        }
    }

    pub open spec fn as_array(self) -> Option<Seq<JsonV>> {
        match self {
            JsonV::Array(a) => Some(a),
            _ => None,
        }
    }

    pub open spec fn as_u64(self) -> Option<u64> {
        match self {
            JsonV::UInt(n) => Some(n),
            _ => None,
        }
    }

    pub open spec fn as_i64(self) -> Option<i64> {
        match self {
            JsonV::UInt(n) => if n <= i64::MAX {
                Some(n as i64)
            } else {
                None
            },
            JsonV::NegInt(n) => Some(n),
            _ => None,
        }
    }
}

/// The object without members.
pub open spec fn empty_object() -> JsonV {
    JsonV::Object(Map::empty())
}

/// A member that was set is that value, and the others are what they were.
pub proof fn lemma_put_get()
    ensures
        forall|m: Map<Seq<char>, JsonV>, k: Seq<char>, v: JsonV, q: Seq<char>|
            #[trigger] JsonV::Object(m.insert(k, v)).get(q) == (if q == k {
                Some(v)
            } else {
                JsonV::Object(m).get(q)
            }),
{
}

/// The member `b` of the member `a`.
pub open spec fn get2(j: JsonV, a: Seq<char>, b: Seq<char>) -> Option<JsonV> {
    match j.get(a) {
        Some(x) => x.get(b),
        None => None,
    }
}

/// The string that the member of that name is.
pub open spec fn str_at(j: JsonV, k: Seq<char>) -> Option<Seq<char>> {
    match j.get(k) {
        Some(x) => x.as_str(),
        None => None,
    }
}

/// The array that the member of that name is.
pub open spec fn array_at(j: JsonV, k: Seq<char>) -> Option<Seq<JsonV>> {
    match j.get(k) {
        Some(x) => x.as_array(),
        None => None,
    }
}

} // verus!
