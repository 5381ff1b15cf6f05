//! The configuration of the bridge: its clients are those of its first inbound.

use crate::json;
use crate::json::record;
use crate::json::{Json, JsonV};
use crate::seqs;
use crate::seqs::retain;
use crate::text;
use crate::text::same;
use crate::xray::types;
use vstd::prelude::*;

verus! {

broadcast use {crate::json::lemma_array_view, crate::json::lemma_object_view};

/// The first inbound: the first of an array, or the member `0` of an object.
pub open spec fn first_inbound(raw: JsonV) -> Option<JsonV> {
    match raw.get("inbounds"@) {
        Some(ibs) => record::field(ibs, "0"@, 0),
        None => None,
    }
}

/// The clients of the first inbound.
pub open spec fn bridge_clients(raw: JsonV) -> Option<Seq<JsonV>> {
    match first_inbound(raw) {
        Some(ib) => match json::get2(ib, "settings"@, "clients"@) {
            Some(c) => c.as_array(),
            None => None,
        },
        None => None,
    }
}

/// The inbounds with another one in the first place.
pub open spec fn with_first(ibs: JsonV, ib: JsonV) -> JsonV {
    match ibs {
        JsonV::Array(a) => JsonV::Array(a.update(0, ib)),
        _ => ibs.put("0"@, ib),
    }
}

/// The document with another array in the place of the clients.
pub open spec fn with_bridge_clients(raw: JsonV, a: Seq<JsonV>) -> JsonV {
    let ibs = raw.get("inbounds"@)->0;
    let ib = first_inbound(raw)->0;
    let settings = ib.get("settings"@)->0;
    raw.put(
        "inbounds"@,
        with_first(ibs, ib.put("settings"@, settings.put("clients"@, JsonV::Array(a)))),
    )
}

/// The emails of the clients that have one, in order.
pub open spec fn emails_in(a: Seq<JsonV>) -> Seq<Seq<char>>
    decreases a.len(),
{
    if a.len() == 0 {
        Seq::empty()
    } else {
        match json::str_at(a.last(), "email"@) {
            Some(e) => emails_in(a.drop_last()).push(e),
            None => emails_in(a.drop_last()),
        }
    }
}

/// The emails of the bridge's clients.
pub open spec fn emails_of(raw: JsonV) -> Seq<Seq<char>> {
    match bridge_clients(raw) {
        Some(a) => emails_in(a),
        None => Seq::empty(),
    }
}

/// A value has that email.
pub open spec fn has_email(j: JsonV, email: Seq<char>) -> bool {
    json::str_at(j, "email"@) == Some(email)
}

/// The values that are not of that email.
pub open spec fn not_email(email: Seq<char>) -> spec_fn(JsonV) -> bool {
    |j: JsonV| !has_email(j, email)
}

/// A client as the bridge keeps it.
pub open spec fn bridge_client(uuid: Seq<char>, email: Seq<char>) -> JsonV {
    json::empty_object().put("id"@, JsonV::Str(uuid)).put("email"@, JsonV::Str(email))
}

fn first_clients(config: &Json) -> (r: Option<&Vec<Json>>)
    ensures
        match r {
            Some(a) => bridge_clients(config@) == Some(json::views(a@)),
            None => bridge_clients(config@) is None,
        },
{
    match config.get("inbounds") {
        Some(ibs) => match ibs.field("0", 0) {
            Some(ib) => match ib.get("settings") {
                Some(s) => match s.get("clients") {
                    Some(c) => c.as_array(),
                    None => None,
                },
                None => None,
            },
            None => None,
        },
        None => None,
    }
}

fn first_mut(ibs: &mut Json) -> (r: Option<&mut Json>)
    ensures
        match r {
            Some(x) => {
                &&& record::field(old(ibs)@, "0"@, 0) == Some((*x)@)
                &&& final(ibs)@ == with_first(old(ibs)@, (*final(x))@)
            },
            None => record::field(old(ibs)@, "0"@, 0) is None && final(ibs)@ == old(ibs)@,
        },
{
    match ibs {
        Json::Array(a) => if a.len() > 0 {
            proof {
                types::lemma_views_update(a@, 0);
            }
            Some(&mut a[0])
        } else {
            None
        },
        _ => ibs.get_mut("0"),
    }
}

/// The clients array, to be changed in place.
fn first_clients_mut(config: &mut Json) -> (r: Option<&mut Vec<Json>>)
    ensures
        match r {
            Some(a) => {
                &&& bridge_clients(old(config)@) == Some(json::views((*a)@))
                &&& final(config)@ == with_bridge_clients(
                    old(config)@,
                    json::views((*final(a))@),
                )
            },
            None => bridge_clients(old(config)@) is None && final(config)@ == old(config)@,
        },
{
    let ghost raw = config@;
    match config.get_mut("inbounds") {
        None => None,
        Some(ibs) => {
            let ghost ibs0 = ibs@;
            proof {
                types::lemma_put_same(raw, "inbounds"@);
            }
            match first_mut(ibs) {
                None => None,
                Some(ib) => {
                    let ghost ib0 = ib@;
                    proof {
                        lemma_with_first_same(ibs0);
                    }
                    match ib.get_mut("settings") {
                        None => None,
                        Some(s) => {
                            let ghost s0 = s@;
                            proof {
                                types::lemma_put_same(ib0, "settings"@);
                            }
                            match s.get_mut("clients") {
                                None => None,
                                Some(c) => {
                                    proof {
                                        types::lemma_put_same(s0, "clients"@);
                                    }
                                    c.as_array_mut()
                                },
                            }
                        },
                    }
                },
            }
        },
    }
}

proof fn lemma_with_first_same(ibs: JsonV)
    requires
        record::field(ibs, "0"@, 0) is Some,
    ensures
        with_first(ibs, record::field(ibs, "0"@, 0)->0) == ibs,
{
    match ibs {
        JsonV::Array(a) => {
            types::lemma_update_same(a, 0);
        },
        _ => {
            types::lemma_put_same(ibs, "0"@);
        },
    }
}

/// The emails of the bridge's clients.
pub fn user_emails(config: &Json) -> (r: Vec<String>)
    ensures
        text::texts(r@) == emails_of(config@),
{
    let mut out: Vec<String> = Vec::new();
    assert(text::texts(out@) =~= Seq::empty());
    match first_clients(config) {
        Some(a) => {
            let ghost s = json::views(a@);
            let mut i: usize = 0;
            assert(s.take(0) =~= Seq::empty());
            while i < a.len()
                invariant
                    i <= a@.len(),
                    s == json::views(a@),
                    text::texts(out@) == emails_in(s.take(i as int)),
                decreases a.len() - i,
            {
                assert(s.take(i + 1).drop_last() =~= s.take(i as int));
                let ghost before = text::texts(out@);
                match a[i].str_at("email") {
                    Some(e) => {
                        out.push(e.to_owned());
                        assert(text::texts(out@) =~= before.push(e@));
                    },
                    None => {},
                }
                i += 1;
            }
            assert(s.take(i as int) =~= s);
        },
        None => {},
    }
    out
}

/// What an edit of the bridge's configuration comes to.
#[derive(Debug)]
pub enum Edit {
    /// Nothing is to be written.
    Unchanged,
    /// The new configuration is to be written.
    Write(Json),
    /// The configuration cannot be edited.
    Fault(String),
}

/// Adds a client, unless its id is there.
pub fn add_client(config: Json, uuid: &str, email: &str) -> (r: Edit)
    ensures
        match bridge_clients(config@) {
            None => r matches Edit::Fault(m) && m@ == "no clients array in config"@,
            Some(a) => if types::first_id(a, uuid@, 0) is Some {
                r is Unchanged
            } else {
                r matches Edit::Write(c) && c@ == with_bridge_clients(
                    config@,
                    a.push(bridge_client(uuid@, email@)),
                )
            },
        },
{
    let mut config = config;
    match first_clients(&config) {
        None => {
            return Edit::Fault("no clients array in config".to_owned());
        },
        Some(a) => {
            if types::id_index(a, uuid).is_some() {
                return Edit::Unchanged;
            }
        },
    }
    let client = Json::object().with("id", Json::text(uuid)).with("email", Json::text(email));
    match first_clients_mut(&mut config) {
        None => {
            return Edit::Fault("no clients array in config".to_owned());
        },
        Some(a) => {
            let ghost before = a@;
            a.push(client);
            assert(json::views(a@) =~= json::views(before).push(client@));
        },
    }
    Edit::Write(config)
}

fn json_has_email(j: &Json, email: &str) -> (r: bool)
    ensures
        r == has_email(j@, email@),
{
    match j.str_at("email") {
        Some(e) => same(e, email),
        None => false,
    }
}

/// Removes the clients of that email.
pub fn remove_client(config: Json, email: &str) -> (r: Edit)
    ensures
        match bridge_clients(config@) {
            None => r matches Edit::Fault(m) && m@ == "no clients array in config"@,
            Some(a) => if exists|i: int| 0 <= i < a.len() && has_email(#[trigger] a[i], email@) {
                r matches Edit::Write(c) && c@ == with_bridge_clients(
                    config@,
                    a.filter(not_email(email@)),
                )
            } else {
                r is Unchanged
            },
        },
{
    let mut config = config;
    match first_clients_mut(&mut config) {
        None => {
            return Edit::Fault("no clients array in config".to_owned());
        },
        Some(a) => {
            let before: usize = a.len();
            let ghost s = a@;
            let ghost p = |j: Json| !has_email(j@, email@);
            let keep = |j: &Json| -> (b: bool)
                ensures
                    b == !has_email(j@, email@),
                { !json_has_email(j, email) };
            retain(a, keep, Ghost(p));
            proof {
                types::lemma_views_filter(s, p, not_email(email@));
                seqs::lemma_filter_all(json::views(s), not_email(email@));
            }
            if a.len() == before {
                return Edit::Unchanged;
            }
        },
    }
    Edit::Write(config)
}

/// After an edit the new array is what is read, and the other members of the document stay.
pub proof fn law_bridge_edit_touches_clients_only(raw: JsonV, a: Seq<JsonV>)
    requires
        bridge_clients(raw) is Some,
    ensures
        bridge_clients(with_bridge_clients(raw, a)) == Some(a),
        forall|k: Seq<char>|
            k != "inbounds"@ ==> #[trigger] with_bridge_clients(raw, a).get(k) == raw.get(k),
{
}

/// A client that was added to the bridge is found there by its id; adding it again changes nothing.
pub proof fn law_bridge_add_is_idempotent(a: Seq<JsonV>, uuid: Seq<char>, email: Seq<char>)
    ensures
        types::first_id(a.push(bridge_client(uuid, email)), uuid, 0) is Some,
{
    reveal_strlit("id");
    reveal_strlit("email");
    let b = a.push(bridge_client(uuid, email));
    types::lemma_first_id(b, uuid, 0);
    assert("id"@.len() == 2 && "email"@.len() == 5);
    assert(types::has_id(b[a.len() as int], uuid));
}

/// A client that was removed from the bridge has no email listed there.
pub proof fn law_bridge_removed_is_gone(a: Seq<JsonV>, email: Seq<char>)
    ensures
        !emails_in(a.filter(not_email(email))).contains(email),
    decreases a.len(),
{
    reveal(Seq::filter);
    let p = not_email(email);
    if a.len() > 0 {
        law_bridge_removed_is_gone(a.drop_last(), email);
        if p(a.last()) {
            let f = a.drop_last().filter(p).push(a.last());
            assert(a.filter(p) == f);
            assert(f.drop_last() =~= a.drop_last().filter(p));
            let before = emails_in(f.drop_last());
            let all = emails_in(f);
            assert forall|i: int| 0 <= i < all.len() implies all[i] != email by {
                if i < before.len() {
                    assert(all[i] == before[i]);
                    assert(before.contains(before[i]));
                }
            }
        }
    } else {
        assert(a.filter(p) =~= Seq::empty());
    }
}

// ---- laws on the members ----

/// `a` is the array at `settings.clients` of the first inbound, and the inbounds are the array `s`.
pub open spec fn first_inbound_clients(raw: JsonV, s: Seq<JsonV>, a: Seq<JsonV>) -> bool {
    &&& raw.get("inbounds"@) == Some(JsonV::Array(s))
    &&& s.len() > 0
    &&& s[0].get("settings"@) matches Some(st) && st.get("clients"@) == Some(JsonV::Array(a))
}

/// The two documents differ in the clients of the first inbound at most, and these are `b` in the new
/// one.
pub open spec fn only_first_clients_differ(
    raw: JsonV,
    new: JsonV,
    s: Seq<JsonV>,
    b: Seq<JsonV>,
) -> bool {
    &&& forall|k: Seq<char>| k != "inbounds"@ ==> #[trigger] new.get(k) == raw.get(k)
    &&& new.get("inbounds"@) matches Some(JsonV::Array(t)) && {
        &&& t.len() == s.len()
        &&& forall|j: int| 0 < j < s.len() ==> #[trigger] t[j] == s[j]
        &&& forall|k: Seq<char>| k != "settings"@ ==> #[trigger] t[0].get(k) == s[0].get(k)
        &&& match (t[0].get("settings"@), s[0].get("settings"@)) {
            (Some(n), Some(o)) => n.get("clients"@) == Some(JsonV::Array(b)) && forall|
                k: Seq<char>,
            |
                k != "clients"@ ==> #[trigger] n.get(k) == o.get(k),
            _ => false,
        }
    }
}

/// **The bridge is given a client once.** Where a client of the first inbound has the id, nothing is
/// written; else the clients are written as they were and one behind them, with the id and the
/// email, and nothing else of the document changes.
pub proof fn law_bridge_is_given_a_client_once(
    config: Json,
    uuid: &str,
    email: &str,
    r: Edit,
    s: Seq<JsonV>,
    a: Seq<JsonV>,
)
    requires
        call_ensures(add_client, (config, uuid, email), r),
        first_inbound_clients(config@, s, a),
    ensures
        if exists|i: int|
            0 <= i < a.len() && (#[trigger] a[i]).get("id"@) == Some(JsonV::Str(uuid@)) {
            r is Unchanged
        } else {
            r is Write && exists|c: JsonV|
                #![trigger a.push(c)]
                {
                    &&& only_first_clients_differ(config@, r->Write_0@, s, a.push(c))
                    &&& c.get("id"@) == Some(JsonV::Str(uuid@))
                    &&& c.get("email"@) == Some(JsonV::Str(email@))
                }
        },
{
    reveal_strlit("id");
    reveal_strlit("email");
    assert("id"@.len() == 2 && "email"@.len() == 5);
    assert(record::field(JsonV::Array(s), "0"@, 0) == Some(s[0]));
    types::lemma_first_id(a, uuid@, 0);
    if exists|i: int|
        0 <= i < a.len() && (#[trigger] a[i]).get("id"@) == Some(JsonV::Str(uuid@)) {
        let i = choose|i: int|
            0 <= i < a.len() && (#[trigger] a[i]).get("id"@) == Some(JsonV::Str(uuid@));
        assert(types::has_id(a[i], uuid@));
    } else {
        if types::first_id(a, uuid@, 0) is Some {
            let k = types::first_id(a, uuid@, 0)->0;
            assert(a[k].get("id"@) == Some(JsonV::Str(uuid@)));
        }
        let c = bridge_client(uuid@, email@);
        assert(only_first_clients_differ(config@, r->Write_0@, s, a.push(c)));
    }
}

/// **The bridge loses the clients of an email and no others.** Where a client of the first inbound
/// has the email, the clients with another email or none are written, in their order, and nothing
/// else of the document changes; else nothing is written.
pub proof fn law_bridge_loses_one_email(
    config: Json,
    email: &str,
    r: Edit,
    s: Seq<JsonV>,
    a: Seq<JsonV>,
)
    requires
        call_ensures(remove_client, (config, email), r),
        first_inbound_clients(config@, s, a),
    ensures
        if exists|i: int|
            0 <= i < a.len() && (#[trigger] a[i]).get("email"@) == Some(JsonV::Str(email@)) {
            r is Write && only_first_clients_differ(
                config@,
                r->Write_0@,
                s,
                a.filter(|c: JsonV| c.get("email"@) != Some(JsonV::Str(email@))),
            )
        } else {
            r is Unchanged
        },
{
    assert(record::field(JsonV::Array(s), "0"@, 0) == Some(s[0]));
    let p = |c: JsonV| c.get("email"@) != Some(JsonV::Str(email@));
    assert(not_email(email@) =~= p);
    if exists|i: int|
        0 <= i < a.len() && (#[trigger] a[i]).get("email"@) == Some(JsonV::Str(email@)) {
        let i = choose|i: int|
            0 <= i < a.len() && (#[trigger] a[i]).get("email"@) == Some(JsonV::Str(email@));
        assert(has_email(a[i], email@));
        assert(r is Write);
    } else {
        if exists|i: int| 0 <= i < a.len() && has_email(#[trigger] a[i], email@) {
            let i = choose|i: int| 0 <= i < a.len() && has_email(#[trigger] a[i], email@);
            assert(a[i].get("email"@) == Some(JsonV::Str(email@)));
        }
    }
}

proof fn lemma_emails_in(a: Seq<JsonV>)
    ensures
        forall|e: Seq<char>| #[trigger]
            emails_in(a).contains(e) <==> exists|i: int|
                0 <= i < a.len() && (#[trigger] a[i]).get("email"@) == Some(JsonV::Str(e)),
    decreases a.len(),
{
    let all = emails_in(a);
    if a.len() > 0 {
        let b = a.drop_last();
        let bs = emails_in(b);
        lemma_emails_in(b);
        assert forall|e: Seq<char>| #[trigger] all.contains(e) implies exists|i: int|
            0 <= i < a.len() && (#[trigger] a[i]).get("email"@) == Some(JsonV::Str(e)) by {
            let k = choose|k: int| 0 <= k < all.len() && all[k] == e;
            if k < bs.len() {
                assert(bs[k] == e);
                assert(bs.contains(e));
                let i = choose|i: int|
                    0 <= i < b.len() && (#[trigger] b[i]).get("email"@) == Some(JsonV::Str(e));
                assert(a[i] == b[i]);
            } else {
                assert(a[a.len() - 1].get("email"@) == Some(JsonV::Str(e)));
            }
        }
        assert forall|e: Seq<char>|
            (exists|i: int|
                0 <= i < a.len() && (#[trigger] a[i]).get("email"@) == Some(JsonV::Str(e))) implies
            #[trigger] all.contains(e) by {
            let i = choose|i: int|
                0 <= i < a.len() && (#[trigger] a[i]).get("email"@) == Some(JsonV::Str(e));
            if i < b.len() {
                assert(b[i] == a[i]);
                assert(bs.contains(e));
                let k = choose|k: int| 0 <= k < bs.len() && bs[k] == e;
                assert(all[k] == e);
            } else {
                assert(all[all.len() - 1] == e);
            }
        }
    }
}

/// **The emails are those of the clients of the first inbound.**
pub proof fn law_emails_are_the_clients_own(
    config: Json,
    r: Vec<String>,
    s: Seq<JsonV>,
    a: Seq<JsonV>,
    e: Seq<char>,
)
    requires
        call_ensures(user_emails, (&config,), r),
        first_inbound_clients(config@, s, a),
    ensures
        text::texts(r@).contains(e) <==> exists|i: int|
            0 <= i < a.len() && (#[trigger] a[i]).get("email"@) == Some(JsonV::Str(e)),
{
    assert(record::field(JsonV::Array(s), "0"@, 0) == Some(s[0]));
    lemma_emails_in(a);
}

} // verus!
