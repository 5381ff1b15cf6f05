//! Reading and changing the parts of a JSON value.

use crate::json;
use crate::json::{Json, JsonV};
use crate::order;
use crate::order::insert_sorted;
use crate::text;
use crate::text::same;
use vstd::prelude::*;

verus! {

broadcast use {crate::json::lemma_array_view, crate::json::lemma_object_view};

fn last_index(o: &Vec<(String, Json)>, key: &str) -> (r: Option<usize>)
    ensures
        match r {
            Some(i) => i < o@.len() && o@[i as int].0@ == key@ && forall|j: int|
                i < j < o@.len() ==> o@[j].0@ != key@,
            None => forall|j: int| 0 <= j < o@.len() ==> o@[j].0@ != key@,
        },
{
    let mut i: usize = o.len();
    while i > 0
        invariant
            i <= o@.len(),
            forall|j: int| i <= j < o@.len() ==> o@[j].0@ != key@,
        decreases i,
    {
        i -= 1;
        if same(&o[i].0, key) {
            return Some(i);
        }
    }
    None
}

impl Json {
    /// The member of that name.
    pub fn get(&self, key: &str) -> (r: Option<&Json>)
        ensures
            match r {
                Some(x) => self@.get(key@) == Some(x@),
                None => self@.get(key@) is None,
            },
    {
        match self {
            Json::Object(o) => {
                match last_index(o, key) {
                    Some(i) => {
                        proof {
                            json::lemma_members_last(json::pair_views(o@), i as int);
                        }
                        Some(&o[i].1)
                    },
                    None => {
                        proof {
                            json::lemma_members_absent(json::pair_views(o@), key@);
                        }
                        None
                    },
                }
            },
            _ => None,
        }
    }

    /// The member of that name, to be changed in place.
    pub fn get_mut(&mut self, key: &str) -> (r: Option<&mut Json>)
        ensures
            match r {
                Some(x) => {
                    &&& old(self)@.get(key@) == Some((*x)@)
                    &&& final(self)@ == old(self)@.put(key@, (*final(x))@)
                },
                None => old(self)@.get(key@) is None && *final(self) == *old(self),
            },
    {
        match self {
            Json::Object(o) => {
                match last_index(o, key) {
                    Some(i) => {
                        proof {
                            json::lemma_members_last(json::pair_views(o@), i as int);
                            json::lemma_pairs_update(o@, i as int);
                        }
                        Some(&mut o[i].1)
                    },
                    None => {
                        proof {
                            json::lemma_members_absent(json::pair_views(o@), key@);
                        }
                        None
                    },
                }
            },
            _ => None,
        }
    }

    /// Sets a member of an object; another value stays as it is.
    pub fn put(&mut self, key: &str, value: Json)
        ensures
            final(self)@ == old(self)@.put(key@, value@),
    {
        match self {
            Json::Object(o) => {
                let ghost before = json::pair_views(o@);
                o.push((key.to_owned(), value));
                assert(json::pair_views(o@) =~= before.push((key@, value@)));
                assert(json::pair_views(o@).drop_last() =~= before);
            },
            _ => {},
        }
    }

    pub fn as_str(&self) -> (r: Option<&str>)
        ensures
            match r {
                Some(s) => self@.as_str() == Some(s@),
                None => self@.as_str() is None,
            },
    {
        match self {
            Json::Str(s) => Some(s.as_str()),
            _ => None,
        }
    }

    pub fn as_array(&self) -> (r: Option<&Vec<Json>>)
        ensures
            match r {
                Some(a) => self@ == JsonV::Array(json::views(a@)),
                None => self@.as_array() is None,
            },
    {
        match self {
            Json::Array(a) => Some(a),
            _ => None,
        }
    }

    /// The elements of an array, to be changed in place.
    pub fn as_array_mut(&mut self) -> (r: Option<&mut Vec<Json>>)
        ensures
            match r {
                Some(a) => {
                    &&& old(self)@ == JsonV::Array(json::views((*a)@))
                    &&& final(self)@ == JsonV::Array(json::views((*final(a))@))
                },
                None => old(self)@.as_array() is None && *final(self) == *old(self),
            },
    {
        match self {
            Json::Array(a) => Some(a),
            _ => None,
        }
    }

    pub fn as_u64(&self) -> (r: Option<u64>)
        ensures
            r == self@.as_u64(),
    {
        match self {
            Json::UInt(n) => Some(*n),
            Json::NegInt(n) => if *n < 0 {
                None
            } else {
                Some(*n as u64)
            },
            _ => None,
        }
    }

    pub fn as_i64(&self) -> (r: Option<i64>)
        ensures
            r == self@.as_i64(),
    {
        match self {
            Json::UInt(n) => if *n <= i64::MAX as u64 {
                Some(*n as i64)
            } else {
                None
            },
            Json::NegInt(n) => Some(*n),
            _ => None,
        }
    }

    /// The string that the member of that name is.
    pub fn str_at(&self, key: &str) -> (r: Option<&str>)
        ensures
            match r {
                Some(s) => json::str_at(self@, key@) == Some(s@),
                None => json::str_at(self@, key@) is None,
            },
    {
        match self.get(key) {
            Some(x) => x.as_str(),
            None => None,
        }
    }

    /// The array that the member of that name is.
    pub fn array_at(&self, key: &str) -> (r: Option<&Vec<Json>>)
        ensures
            match r {
                Some(a) => json::array_at(self@, key@) == Some(json::views(a@)),
                None => json::array_at(self@, key@) is None,
            },
    {
        match self.get(key) {
            Some(x) => x.as_array(),
            None => None,
        }
    }

    /// The names of an object's members, sorted.
    pub fn names(&self) -> (r: Option<Vec<String>>)
        ensures
            match r {
                Some(v) => self@ matches JsonV::Object(m) && order::sorted(text::texts(v@))
                    && text::texts(v@).to_set() == m.dom(),
                None => !(self@ is Object),
            },
    {
        match self {
            Json::Object(o) => {
                let mut out: Vec<String> = Vec::new();
                let mut i: usize = 0;
                let ghost s = json::pair_views(o@);
                assert(s.take(0) =~= Seq::empty());
                assert(text::texts(out@).to_set() =~= json::members(s.take(0)).dom());
                while i < o.len()
                    invariant
                        i <= o@.len(),
                        s == json::pair_views(o@),
                        order::sorted(text::texts(out@)),
                        text::texts(out@).to_set() == json::members(s.take(i as int)).dom(),
                    decreases o.len() - i,
                {
                    assert(s.take(i + 1).drop_last() =~= s.take(i as int));
                    insert_sorted(&mut out, &o[i].0);
                    assert(text::texts(out@).to_set() =~= json::members(s.take(i + 1)).dom());
                    i += 1;
                }
                assert(s.take(i as int) =~= s);
                Some(out)
            },
            _ => None,
        }
    }

    /// An object without members.
    pub fn object() -> (r: Json)
        ensures
            r@ == json::empty_object(),
    {
        let none: Vec<(String, Json)> = Vec::new();
        assert(json::pair_views(none@) =~= Seq::empty());
        Json::Object(none)
    }

    /// The object with one member more.
    pub fn with(self, key: &str, value: Json) -> (r: Json)
        ensures
            r@ == self@.put(key@, value@),
    {
        let mut j = self;
        j.put(key, value);
        j
    }

    /// An array of one element.
    pub fn list(x: Json) -> (r: Json)
        ensures
            r@ == JsonV::Array(seq![x@]),
    {
        let mut a: Vec<Json> = Vec::new();
        a.push(x);
        assert(json::views(a@) =~= seq![x@]);
        Json::Array(a)
    }

    /// A string value.
    pub fn text(s: &str) -> (r: Json)
        ensures
            r@ == JsonV::Str(s@),
    {
        Json::Str(s.to_owned())
    }
}

// ---- laws ----

/// **A value is read as what it is, and as nothing else.**
pub proof fn law_values_are_read_as_what_they_are(
    j: Json,
    s: Option<&str>,
    a: Option<&Vec<Json>>,
    u: Option<u64>,
    i: Option<i64>,
)
    requires
        call_ensures(Json::as_str, (&j,), s),
        call_ensures(Json::as_array, (&j,), a),
        call_ensures(Json::as_u64, (&j,), u),
        call_ensures(Json::as_i64, (&j,), i),
    ensures
        j matches Json::Str(t) ==> (s matches Some(x) && x@ == t@) && a is None && u is None && i
            is None,
        j matches Json::Array(v) ==> s is None && a is Some && a->0@.len() == v@.len() && u is None
            && i is None,
        j matches Json::UInt(n) ==> s is None && a is None && u == Some(n) && (n
            <= 0x7fff_ffff_ffff_ffff ==> (i matches Some(m) && m == n)) && (n
            > 0x7fff_ffff_ffff_ffff ==> i is None),
        j matches Json::NegInt(n) ==> s is None && a is None && i == Some(n) && (n < 0 ==> u
            is None),
        j matches Json::Bool(_) ==> s is None && a is None && u is None && i is None,
        j is Null ==> s is None && a is None && u is None && i is None,
        j is Object ==> s is None && a is None && u is None && i is None,
{
    if let Json::Array(v) = j {
        assert(j@ == JsonV::Array(json::views(v@)));
        assert(json::views(v@).len() == v@.len());
        assert(json::views(a->0@).len() == a->0@.len());
    }
}

/// **A member that was set is read back, and the others are as they were.**
pub proof fn law_members_are_read_back(
    j: Json,
    key: &str,
    other: &str,
    value: Json,
    k: Json,
    x: Option<&Json>,
    y: Option<&Json>,
    z: Option<&Json>,
)
    requires
        j is Object,
        other@ != key@,
        call_ensures(Json::with, (j, key, value), k),
        call_ensures(Json::get, (&k, key), x),
        call_ensures(Json::get, (&k, other), y),
        call_ensures(Json::get, (&j, other), z),
    ensures
        x matches Some(v) && v@ == value@,
        (y is Some) == (z is Some),
        y is Some ==> y->0@ == z->0@,
{
    if let Json::Object(o) = j {
        assert(j@ is Object);
    }
}

/// **The texts and the lists of an object are those of its members.**
pub proof fn law_members_by_kind(
    j: Json,
    key: &str,
    x: Option<&Json>,
    s: Option<&str>,
    a: Option<&Vec<Json>>,
    xs: Option<&str>,
    xa: Option<&Vec<Json>>,
)
    requires
        call_ensures(Json::get, (&j, key), x),
        call_ensures(Json::str_at, (&j, key), s),
        call_ensures(Json::array_at, (&j, key), a),
        x matches Some(v) ==> call_ensures(Json::as_str, (v,), xs) && call_ensures(
            Json::as_array,
            (v,),
            xa,
        ),
    ensures
        x is None ==> s is None && a is None,
        x is Some ==> (s is Some == xs is Some) && (s is Some ==> s->0@ == xs->0@) && (a is Some
            == xa is Some) && (a is Some ==> json::views(a->0@) == json::views(xa->0@)),
{
}

} // verus!
