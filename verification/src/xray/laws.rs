//! What holds of the two documents over several operations.

use crate::error::AppError;
use crate::json;
use crate::json::codec;
use crate::json::record;
use crate::json::JsonV;
use crate::seqs;
use crate::xray::routing;
use crate::xray::table;
use crate::xray::table::ClientsTable;
use crate::xray::types;
use crate::xray::types::{ClientV, EntryV, ServerConfig, UserV};
use vstd::prelude::*;

verus! {

// ---- clients ----

proof fn lemma_client_names_differ()
    ensures
        "id"@ != "flow"@,
        "id"@ != "email"@,
        "id"@ != "level"@,
        "flow"@ != "email"@,
        "flow"@ != "level"@,
        "email"@ != "level"@,
        "settings"@ != "protocol"@,
{
    reveal_strlit("id");
    reveal_strlit("flow");
    reveal_strlit("email");
    reveal_strlit("level");
    reveal_strlit("settings");
    reveal_strlit("protocol");
    assert("id"@.len() == 2 && "flow"@.len() == 4 && "email"@.len() == 5 && "level"@.len() == 5);
    assert("email"@[0] == 'e' && "level"@[0] == 'l');
    assert("settings"@[0] == 's' && "protocol"@[0] == 'p');
}

/// A client is read back from its JSON.
pub proof fn law_client_reads_back(c: ClientV)
    ensures
        types::client_of(types::client_json(c)) == Some(c),
        types::has_id(types::client_json(c), c.id),
{
    lemma_client_names_differ();
    let j = types::client_json(c);
    assert(record::field(j, "id"@, 0) == Some(JsonV::Str(c.id)));
    assert(record::field(j, "flow"@, 1) == Some(JsonV::Str(c.flow)));
}

/// Replacing the clients keeps the place of the main VLESS inbound.
proof fn lemma_first_vless_kept(s: Seq<JsonV>, i: int, x: JsonV, k: int)
    requires
        0 <= k <= i < s.len(),
        types::first_vless(s, k) == Some(i),
        types::is_vless(x),
    ensures
        types::first_vless(s.update(i, x), k) == Some(i),
    decreases s.len() - k,
{
    if k < i {
        types::lemma_first_vless(s, k);
        assert(!types::is_vless(s[k]));
        assert(s.update(i, x)[k] == s[k]);
        lemma_first_vless_kept(s, i, x, k + 1);
    }
}

/// Editing the clients changes the clients and nothing else: the new array is what is read, the
/// other members of the document and the other inbounds stay, and so do the other members of the
/// inbound and of its settings.
pub proof fn law_edit_touches_clients_only(raw: JsonV, a: Seq<JsonV>)
    requires
        types::clients_array(raw) is Some,
    ensures
        types::clients_array(types::with_clients(raw, a)) == Some(a),
        forall|k: Seq<char>|
            k != "inbounds"@ ==> #[trigger] types::with_clients(raw, a).get(k) == raw.get(k),
        types::inbounds(types::with_clients(raw, a)).len() == types::inbounds(raw).len(),
        forall|i: int|
            0 <= i < types::inbounds(raw).len() && Some(i) != types::first_vless(
                types::inbounds(raw),
                0,
            ) ==> #[trigger] types::inbounds(types::with_clients(raw, a))[i] == types::inbounds(
                raw,
            )[i],
        forall|k: Seq<char>|
            k != "settings"@ ==> #[trigger] (types::vless_inbound(
                types::with_clients(raw, a),
            )->0).get(k) == (types::vless_inbound(raw)->0).get(k),
        forall|k: Seq<char>|
            k != "clients"@ ==> #[trigger] ((types::vless_inbound(
                types::with_clients(raw, a),
            )->0).get("settings"@)->0).get(k) == ((types::vless_inbound(raw)->0).get(
                "settings"@,
            )->0).get(k),
{
    lemma_client_names_differ();
    let ibs = types::inbounds(raw);
    types::lemma_first_vless(ibs, 0);
    let i = types::first_vless(ibs, 0)->0;
    let settings = ibs[i].get("settings"@)->0;
    let ib = ibs[i].put("settings"@, settings.put("clients"@, JsonV::Array(a)));
    assert(ib.get("protocol"@) == ibs[i].get("protocol"@));
    assert(types::is_vless(ib));
    lemma_first_vless_kept(ibs, i, ib, 0);
    assert(types::inbounds(types::with_clients(raw, a)) == ibs.update(i, ib));
}

/// Editing the clients twice is editing them once.
proof fn lemma_edit_twice(raw: JsonV, a: Seq<JsonV>, b: Seq<JsonV>)
    requires
        types::clients_array(raw) is Some,
    ensures
        types::with_clients(types::with_clients(raw, a), b) == types::with_clients(raw, b),
{
    law_edit_touches_clients_only(raw, a);
    lemma_client_names_differ();
    let ibs = types::inbounds(raw);
    types::lemma_first_vless(ibs, 0);
    let i = types::first_vless(ibs, 0)->0;
    let settings = ibs[i].get("settings"@)->0;
    let sa = settings.put("clients"@, JsonV::Array(a));
    let sb = settings.put("clients"@, JsonV::Array(b));
    assert(sa.put("clients"@, JsonV::Array(b))->Object_0 =~= sb->Object_0);
    let ia = ibs[i].put("settings"@, sa);
    let ib = ibs[i].put("settings"@, sb);
    assert(types::is_vless(ia));
    lemma_first_vless_kept(ibs, i, ia, 0);
    assert(ia.put("settings"@, sb)->Object_0 =~= ib->Object_0);
    let ra = types::with_clients(raw, a);
    assert(types::inbounds(ra) == ibs.update(i, ia));
    assert(ibs.update(i, ia).update(i, ib) =~= ibs.update(i, ib));
    let x = JsonV::Array(ibs.update(i, ib));
    assert(ra.put("inbounds"@, x)->Object_0 =~= raw.put("inbounds"@, x)->Object_0);
}

/// A client that was added is the last one listed, and the others are listed as before.
pub proof fn law_added_client_is_listed(raw: JsonV, c: ClientV)
    requires
        types::clients_array(raw) matches Some(a) && types::all_clients(a),
    ensures
        types::clients_of(
            types::with_clients(
                raw,
                (types::clients_array(raw)->0).push(types::client_json(c)),
            ),
        ) == types::clients_of(raw).push(c),
{
    let a = types::clients_array(raw)->0;
    let b = a.push(types::client_json(c));
    law_edit_touches_clients_only(raw, b);
    law_client_reads_back(c);
    assert forall|i: int| 0 <= i < b.len() implies types::client_of(#[trigger] b[i]) is Some by {
        if i < a.len() {
            assert(b[i] == a[i]);
        }
    }
    assert(types::clients_in(b) =~= types::clients_in(a).push(c));
}

/// After a removal no client of that id is left, and every other client stays, in order.
pub proof fn law_removed_client_is_gone(raw: JsonV, id: Seq<char>)
    requires
        types::clients_array(raw) is Some,
    ensures
        types::clients_array(
            types::with_clients(raw, (types::clients_array(raw)->0).filter(types::not_id(id))),
        ) matches Some(b) && types::first_id(b, id, 0) is None && b == (types::clients_array(
            raw,
        )->0).filter(types::not_id(id)),
{
    let a = types::clients_array(raw)->0;
    let b = a.filter(types::not_id(id));
    law_edit_touches_clients_only(raw, b);
    seqs::lemma_filter_all(a, types::not_id(id));
    types::lemma_first_id(b, id, 0);
    if types::first_id(b, id, 0) is Some {
        let k = types::first_id(b, id, 0)->0;
        assert(types::not_id(id)(b[k]));
    }
}

/// Removing the client that was just added restores the document, if its id was new.
pub proof fn law_remove_undoes_add(raw: JsonV, c: ClientV)
    requires
        types::clients_array(raw) matches Some(a) && types::first_id(a, c.id, 0) is None,
    ensures
        ({
            let a = types::clients_array(raw)->0;
            let added = types::with_clients(raw, a.push(types::client_json(c)));
            let b = types::clients_array(added)->0;
            types::with_clients(added, b.filter(types::not_id(c.id))) == raw
        }),
{
    let a = types::clients_array(raw)->0;
    let b = a.push(types::client_json(c));
    law_edit_touches_clients_only(raw, b);
    law_client_reads_back(c);
    seqs::lemma_filter_push(a, types::client_json(c), types::not_id(c.id));
    types::lemma_first_id(a, c.id, 0);
    seqs::lemma_filter_all(a, types::not_id(c.id));
    assert(b.filter(types::not_id(c.id)) == a);
    lemma_edit_twice(raw, b, a);
    types::lemma_with_same(raw);
}

/// A new email changes the email of that one client; the clients are otherwise listed as before.
pub proof fn law_new_email_is_listed(raw: JsonV, id: Seq<char>, email: Seq<char>)
    requires
        types::clients_array(raw) matches Some(a) && types::all_clients(a) && types::first_id(
            a,
            id,
            0,
        ) is Some,
    ensures
        ({
            let a = types::clients_array(raw)->0;
            let i = types::first_id(a, id, 0)->0;
            let old = types::clients_of(raw)[i];
            types::clients_of(
                types::with_clients(
                    raw,
                    a.update(i, a[i].put("email"@, JsonV::Str(email))),
                ),
            ) == types::clients_of(raw).update(
                i,
                ClientV { id: old.id, flow: old.flow, email: Some(email), level: old.level },
            )
        }),
{
    let a = types::clients_array(raw)->0;
    types::lemma_first_id(a, id, 0);
    let i = types::first_id(a, id, 0)->0;
    let x = a[i].put("email"@, JsonV::Str(email));
    let b = a.update(i, x);
    law_edit_touches_clients_only(raw, b);
    lemma_client_names_differ();
    assert(a[i] is Object);
    assert(types::client_of(a[i]) is Some);
    assert(record::field(x, "id"@, 0) == record::field(a[i], "id"@, 0));
    assert(record::field(x, "flow"@, 1) == record::field(a[i], "flow"@, 1));
    assert(record::field(x, "level"@, 3) == record::field(a[i], "level"@, 3));
    assert forall|k: int| 0 <= k < b.len() implies types::client_of(#[trigger] b[k]) is Some by {
        if k != i {
            assert(b[k] == a[k]);
        }
    }
    let old = types::clients_of(raw)[i];
    assert(types::clients_in(b) =~= types::clients_in(a).update(
        i,
        ClientV { id: old.id, flow: old.flow, email: Some(email), level: old.level },
    ));
}

// ---- routes ----

/// A route that was added is the last one listed, and the others are listed as before.
pub proof fn law_added_route_is_listed(raw: JsonV, email: Seq<char>, outbound: Seq<char>)
    requires
        routing::routable(raw),
        match raw.get("routing"@) {
            Some(r) => match r.get("rules"@) {
                Some(rules) => rules is Array,
                None => true,
            },
            None => true,
        },
    ensures
        routing::routes_of(routing::with_rule(raw, routing::route_rule(email, outbound)))
            == routing::routes_of(raw).push((email, outbound)),
{
    let rule = routing::route_rule(email, outbound);
    lemma_rule_routes(email, outbound);
    let rules = match routing::rules_of(raw) {
        Some(r) => r,
        None => Seq::empty(),
    };
    assert(Seq::<JsonV>::empty().push(rule) =~= seq![rule]);
    assert(routing::rules_of(routing::with_rule(raw, rule)) == Some(rules.push(rule)));
    assert(rules.push(rule).drop_last() =~= rules);
    assert(routing::routes_in(rules.push(rule)) =~= routing::routes_in(rules).push(
        (email, outbound),
    ));
}

proof fn lemma_rule_routes(email: Seq<char>, outbound: Seq<char>)
    ensures
        routing::rule_routes(routing::route_rule(email, outbound)) == seq![(email, outbound)],
        routing::routes_user(routing::route_rule(email, outbound), email),
{
    reveal_strlit("type");
    reveal_strlit("user");
    reveal_strlit("outboundTag");
    assert("user"@[0] == 'u' && "outboundTag"@[0] == 'o' && "type"@[0] == 't');
    let rule = routing::route_rule(email, outbound);
    let users = seq![JsonV::Str(email)];
    assert(json::array_at(rule, "user"@) == Some(users));
    assert(json::str_at(rule, "outboundTag"@) == Some(outbound));
    assert(users.drop_last() =~= Seq::empty());
    assert(routing::user_routes(users.drop_last(), outbound) =~= Seq::empty());
    assert(routing::user_routes(users, outbound) =~= seq![(email, outbound)]);
    assert(users[0].as_str() == Some(email));
}

/// A rule that does not name an email routes nobody of that email.
proof fn lemma_user_routes_absent(users: Seq<JsonV>, outbound: Seq<char>, email: Seq<char>)
    requires
        !routing::lists(users, email),
    ensures
        forall|i: int|
            0 <= i < routing::user_routes(users, outbound).len() ==> (
            #[trigger] routing::user_routes(users, outbound)[i]).0 != email,
    decreases users.len(),
{
    if users.len() > 0 {
        let t = users.drop_last();
        assert(!routing::lists(t, email)) by {
            if routing::lists(t, email) {
                let k = choose|k: int| 0 <= k < t.len() && (#[trigger] t[k]).as_str() == Some(email);
                assert(users[k].as_str() == Some(email));
            }
        }
        lemma_user_routes_absent(t, outbound, email);
        let before = routing::user_routes(t, outbound);
        let all = routing::user_routes(users, outbound);
        assert(users[users.len() - 1].as_str() != Some(email));
        assert forall|i: int| 0 <= i < all.len() implies (#[trigger] all[i]).0 != email by {
            if i < before.len() {
                assert(all[i] == before[i]);
            }
        }
    }
}

/// After a removal no route of the user is left.
pub proof fn law_removed_route_is_gone(rules: Seq<JsonV>, email: Seq<char>)
    ensures
        forall|i: int|
            0 <= i < routing::routes_in(rules.filter(routing::not_for(email))).len() ==> (
            #[trigger] routing::routes_in(rules.filter(routing::not_for(email)))[i]).0 != email,
    decreases rules.len(),
{
    reveal(Seq::filter);
    let p = routing::not_for(email);
    if rules.len() > 0 {
        let t = rules.drop_last();
        law_removed_route_is_gone(t, email);
        if p(rules.last()) {
            let f = t.filter(p).push(rules.last());
            assert(rules.filter(p) == f);
            assert(f.drop_last() =~= t.filter(p));
            let rule = rules.last();
            match (json::array_at(rule, "user"@), json::str_at(rule, "outboundTag"@)) {
                (Some(users), Some(outbound)) => {
                    lemma_user_routes_absent(users, outbound, email);
                },
                _ => {},
            }
            let before = routing::routes_in(t.filter(p));
            let all = routing::routes_in(f);
            assert(all == before + routing::rule_routes(rule));
            assert forall|i: int| 0 <= i < all.len() implies (#[trigger] all[i]).0 != email by {
                if i < before.len() {
                    assert(all[i] == before[i]);
                } else {
                    assert(all[i] == routing::rule_routes(rule)[i - before.len()]);
                }
            }
        } else {
            assert(rules.filter(p) == t.filter(p));
        }
    } else {
        assert(rules.filter(p) =~= Seq::empty());
    }
}

/// Removing the route that was just added restores the rules, if the user had none.
pub proof fn law_remove_undoes_add_route(rules: Seq<JsonV>, email: Seq<char>, outbound: Seq<char>)
    requires
        forall|i: int| 0 <= i < rules.len() ==> !routing::routes_user(#[trigger] rules[i], email),
    ensures
        rules.push(routing::route_rule(email, outbound)).filter(routing::not_for(email)) == rules,
{
    lemma_rule_routes(email, outbound);
    seqs::lemma_filter_push(rules, routing::route_rule(email, outbound), routing::not_for(email));
    seqs::lemma_filter_all(rules, routing::not_for(email));
}

// ---- names ----

/// An added entry gives its id a name, unless an earlier entry does.
pub proof fn law_added_name_is_found(t: Seq<EntryV>, e: EntryV, id: Seq<char>)
    ensures
        table::name_of(t.push(e), id) == (match table::name_of(t, id) {
            Some(n) => Some(n),
            None => if e.id == id {
                Some(e.name)
            } else {
                None
            },
        }),
{
    table::lemma_entry_index(t, id, 0);
    table::lemma_entry_index(t.push(e), id, 0);
    match table::entry_index(t, id, 0) {
        Some(i) => {
            assert(t.push(e)[i] == t[i]);
        },
        None => {
            assert(t.push(e)[t.len() as int] == e);
        },
    }
}

/// A renamed client has its new name, and every other id keeps the name it had.
pub proof fn law_rename_changes_one_name(t: Seq<EntryV>, id: Seq<char>, name: Seq<char>, other: Seq<char>)
    requires
        table::entry_index(t, id, 0) is Some,
    ensures
        ({
            let i = table::entry_index(t, id, 0)->0;
            let u = t.update(i, table::renamed(t[i], name));
            &&& table::name_of(u, id) == Some(name)
            &&& other != id ==> table::name_of(u, other) == table::name_of(t, other)
        }),
{
    table::lemma_entry_index(t, id, 0);
    let i = table::entry_index(t, id, 0)->0;
    let u = t.update(i, table::renamed(t[i], name));
    table::lemma_entry_index(u, id, 0);
    table::lemma_entry_index(u, other, 0);
    table::lemma_entry_index(t, other, 0);
    assert(u[i] == table::renamed(t[i], name));
    if other != id {
        match table::entry_index(t, other, 0) {
            Some(k) => {
                assert(u[k] == t[k]);
            },
            None => {},
        }
        match table::entry_index(u, other, 0) {
            Some(k) => {
                assert(u[k] == t[k]);
            },
            None => {},
        }
    }
}

/// After a removal the id has no name, and every other id keeps the name it had.
pub proof fn law_remove_takes_one_name(t: Seq<EntryV>, id: Seq<char>, other: Seq<char>)
    ensures
        table::name_of(t.filter(table::other_than(id)), id) is None,
        other != id ==> table::name_of(t.filter(table::other_than(id)), other) == table::name_of(
            t,
            other,
        ),
    decreases t.len(),
{
    reveal(Seq::filter);
    let p = table::other_than(id);
    if t.len() > 0 {
        let s = t.drop_last();
        law_remove_takes_one_name(s, id, other);
        assert(s.push(t.last()) =~= t);
        law_added_name_is_found(s, t.last(), other);
        if p(t.last()) {
            law_added_name_is_found(s.filter(p), t.last(), id);
            law_added_name_is_found(s.filter(p), t.last(), other);
        }
    }
}

/// A user whose id is new, added to both documents, is listed last under the name and the email
/// that were given.
pub proof fn law_added_user_is_listed(raw: JsonV, t: Seq<EntryV>, c: ClientV, e: EntryV)
    requires
        types::clients_array(raw) matches Some(a) && types::all_clients(a),
        c.id == e.id,
        c.email is Some,
        table::name_of(t, c.id) is None,
    ensures
        ({
            let after = types::with_clients(
                raw,
                (types::clients_array(raw)->0).push(types::client_json(c)),
            );
            let users = table::users_of(after, t.push(e));
            &&& users.len() == table::users_of(raw, t).len() + 1
            &&& users.last().uuid == c.id
            &&& users.last().name == e.name
            &&& users.last().email == c.email->0
        }),
{
    law_added_client_is_listed(raw, c);
    law_added_name_is_found(t, e, c.id);
}

/// Removing the entry that was just added restores the table, if its id was new.
pub proof fn law_remove_undoes_add_entry(t: Seq<EntryV>, e: EntryV)
    requires
        table::entry_index(t, e.id, 0) is None,
    ensures
        t.push(e).filter(table::other_than(e.id)) == t,
{
    table::lemma_entry_index(t, e.id, 0);
    seqs::lemma_filter_push(t, e, table::other_than(e.id));
    seqs::lemma_filter_all(t, table::other_than(e.id));
}

/// The users that are not of that id.
pub open spec fn users_but(id: Seq<char>) -> spec_fn(UserV) -> bool {
    |u: UserV| u.uuid != id
}

proof fn lemma_clients_filtered(a: Seq<JsonV>, id: Seq<char>)
    requires
        types::all_clients(a),
        forall|i: int| 0 <= i < a.len() ==> (#[trigger] a[i]) is Object,
    ensures
        types::all_clients(a.filter(types::not_id(id))),
        types::clients_in(a.filter(types::not_id(id))) == types::clients_in(a).filter(
            |c: ClientV| c.id != id,
        ),
{
    let p = types::not_id(id);
    let q = |c: ClientV| c.id != id;
    let f = |j: JsonV| types::client_of(j)->0;
    assert forall|i: int| 0 <= i < a.len() implies p(#[trigger] a[i]) == q(f(a[i])) by {
        assert(types::client_of(a[i]) is Some);
        assert(record::field(a[i], "id"@, 0) == a[i].get("id"@));
    }
    seqs::lemma_filter_map(a, f, p, q);
    assert(types::clients_in(a) =~= a.map_values(f));
    let b = a.filter(p);
    assert forall|i: int| 0 <= i < b.len() implies types::client_of(#[trigger] b[i]) is Some by {
        seqs::lemma_filter_from(a, p, i);
    }
    assert(types::clients_in(b) =~= b.map_values(f));
}

/// A user that was removed from both documents is not listed any more, and the others are listed
/// as before, in order.
pub proof fn law_removed_user_is_unlisted(raw: JsonV, t: Seq<EntryV>, id: Seq<char>)
    requires
        types::clients_array(raw) matches Some(a) && types::all_clients(a) && forall|i: int|
            0 <= i < a.len() ==> (#[trigger] a[i]) is Object,
    ensures
        table::users_of(
            types::with_clients(raw, (types::clients_array(raw)->0).filter(types::not_id(id))),
            t.filter(table::other_than(id)),
        ) == table::users_of(raw, t).filter(users_but(id)),
{
    let a = types::clients_array(raw)->0;
    let b = a.filter(types::not_id(id));
    let after = types::with_clients(raw, b);
    let u = t.filter(table::other_than(id));
    law_edit_touches_clients_only(raw, b);
    lemma_clients_filtered(a, id);
    let cs = types::clients_of(raw);
    let p = |c: ClientV| c.id != id;
    let f = |c: ClientV| table::user_of(c, t);
    seqs::lemma_filter_map(cs, f, p, users_but(id));
    assert(table::users_of(raw, t) =~= cs.map_values(f));
    let left = table::users_of(after, u);
    let kept = cs.filter(p);
    assert(types::clients_of(after) == kept);
    assert forall|i: int| 0 <= i < kept.len() implies #[trigger] left[i] == f(kept[i]) by {
        seqs::lemma_filter_all(cs, p);
        assert(p(kept[i]));
        law_remove_takes_one_name(t, id, kept[i].id);
    }
    assert(left =~= kept.map_values(f));
}

/// A user that was renamed in both documents is listed in its place under the new name and the new
/// email, and the others are listed as before.
pub proof fn law_renamed_user_is_listed(
    raw: JsonV,
    t: Seq<EntryV>,
    id: Seq<char>,
    name: Seq<char>,
    email: Seq<char>,
)
    requires
        types::clients_array(raw) matches Some(a) && types::all_clients(a) && types::first_id(
            a,
            id,
            0,
        ) is Some,
        table::entry_index(t, id, 0) is Some,
        forall|i: int, j: int|
            0 <= i < j < types::clients_of(raw).len() ==> (#[trigger] types::clients_of(raw)[i]).id
                != (#[trigger] types::clients_of(raw)[j]).id,
    ensures
        ({
            let a = types::clients_array(raw)->0;
            let i = types::first_id(a, id, 0)->0;
            let k = table::entry_index(t, id, 0)->0;
            let old = table::users_of(raw, t)[i];
            table::users_of(
                types::with_clients(raw, a.update(i, a[i].put("email"@, JsonV::Str(email)))),
                t.update(k, table::renamed(t[k], name)),
            ) == table::users_of(raw, t).update(i, UserV { name, email, ..old })
        }),
{
    let a = types::clients_array(raw)->0;
    types::lemma_first_id(a, id, 0);
    let i = types::first_id(a, id, 0)->0;
    let k = table::entry_index(t, id, 0)->0;
    let u = t.update(k, table::renamed(t[k], name));
    law_new_email_is_listed(raw, id, email);
    let cs = types::clients_of(raw);
    assert(types::client_of(a[i]) is Some);
    assert(cs[i].id == id);
    let before = table::users_of(raw, t);
    let after = table::users_of(
        types::with_clients(raw, a.update(i, a[i].put("email"@, JsonV::Str(email)))),
        u,
    );
    law_rename_changes_one_name(t, id, name, id);
    assert forall|j: int| 0 <= j < cs.len() && j != i implies #[trigger] after[j] == before[j] by {
        assert(cs[j].id != id) by {
            if j < i {
                assert(cs[j].id != cs[i].id);
            } else {
                assert(cs[i].id != cs[j].id);
            }
        }
        law_rename_changes_one_name(t, id, name, cs[j].id);
    }
    assert(after =~= before.update(i, UserV { name, email, ..before[i] }));
}

// ---- reading what was written ----

/// A server configuration that can be read at all is read back as it was written.
pub proof fn law_config_reads_back(
    c: ServerConfig,
    written: String,
    read: &str,
    r: Result<ServerConfig, AppError>,
)
    requires
        codec::readable(c@, codec::depth_limit()),
        call_ensures(ServerConfig::to_json, (&c,), written),
        read@ == written@,
        call_ensures(ServerConfig::parse, (read,), r),
    ensures
        r matches Ok(d) && d@ == c@,
{
}

/// A table of clients is read back as it was written.
pub proof fn law_table_document_reads_back(
    t: ClientsTable,
    written: String,
    read: &str,
    r: Result<ClientsTable, AppError>,
)
    requires
        call_ensures(ClientsTable::to_json, (&t,), written),
        read@ == written@,
        call_ensures(ClientsTable::parse, (read,), r),
    ensures
        r matches Ok(u) && u@ == t@,
{
}

/// A server configuration that can be read can still be read after a client was added to it.
pub proof fn law_added_client_stays_readable(raw: JsonV, c: ClientV)
    requires
        codec::readable(raw, codec::depth_limit()),
        types::clients_array(raw) is Some,
    ensures
        codec::readable(
            types::with_clients(
                raw,
                (types::clients_array(raw)->0).push(types::client_json(c)),
            ),
            codec::depth_limit(),
        ),
{
    let d = codec::depth_limit();
    let ibs = types::inbounds(raw);
    let i = types::first_vless(ibs, 0)->0;
    types::lemma_first_vless(ibs, 0);
    let settings = ibs[i].get("settings"@)->0;
    let a = types::clients_array(raw)->0;
    let j = types::client_json(c);
    let o = JsonV::Object(Map::empty());
    codec::lemma_put_readable(o, "id"@, JsonV::Str(c.id), 1);
    let o1 = o.put("id"@, JsonV::Str(c.id));
    codec::lemma_put_readable(o1, "flow"@, JsonV::Str(c.flow), 1);
    let o2 = o1.put("flow"@, JsonV::Str(c.flow));
    let o3 = match c.email {
        Some(e) => o2.put("email"@, JsonV::Str(e)),
        None => o2,
    };
    if let Some(e) = c.email {
        codec::lemma_put_readable(o2, "email"@, JsonV::Str(e), 1);
    }
    if let Some(l) = c.level {
        codec::lemma_put_readable(o3, "level"@, JsonV::UInt(l as u64), 1);
    }
    assert(codec::readable(j, 1));
    codec::lemma_readable_deeper(j, 1, (d - 5) as nat);
    assert(raw->Object_0.dom().contains("inbounds"@));
    assert(codec::readable(JsonV::Array(ibs), (d - 1) as nat));
    assert(codec::readable(ibs[i], (d - 2) as nat));
    assert(ibs[i]->Object_0.dom().contains("settings"@));
    assert(codec::readable(settings, (d - 3) as nat));
    assert(settings->Object_0.dom().contains("clients"@));
    assert(codec::readable(JsonV::Array(a), (d - 4) as nat));
    let b = a.push(j);
    assert(codec::readable(JsonV::Array(b), (d - 4) as nat));
    codec::lemma_put_readable(settings, "clients"@, JsonV::Array(b), (d - 3) as nat);
    let s2 = settings.put("clients"@, JsonV::Array(b));
    codec::lemma_put_readable(ibs[i], "settings"@, s2, (d - 2) as nat);
    let ib2 = ibs[i].put("settings"@, s2);
    let list = JsonV::Array(ibs.update(i, ib2));
    assert(codec::readable(list, (d - 1) as nat));
    codec::lemma_put_readable(raw, "inbounds"@, list, d);
}

} // verus!
