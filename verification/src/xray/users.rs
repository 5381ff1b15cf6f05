//! Laws on the users that the two documents describe, and on what each operation writes into them.

use crate::error::AppError;
use crate::json::codec;
use crate::json::record;
use crate::json::{Json, JsonV};
use crate::text;
use crate::xray::client;
use crate::xray::client::{
    choose_backup, find_email, AddUser, CommandOutput, RemoveUser, RenameUser, Reply, RestoreConfig,
    ServerInfo, XrayApiClient,
};
use crate::xray::commands;
use crate::xray::commands::parse_backup_timestamps;
use crate::xray::table;
use crate::xray::table::{merge_users, ClientsTable};
use crate::xray::types;
use crate::xray::types::{
    EntryV, RealityParams, ServerConfig, ServerJsonClient, TrafficStats, XrayUser,
};
use crate::xray::urls::{build_adu_call, build_adu_json};
use vstd::prelude::*;

verus! {

// ---- reading ----

/// `s` are the inbounds of the document, and `s[i]` is the first of them whose protocol is `vless`.
pub open spec fn main_inbound(raw: JsonV, s: Seq<JsonV>, i: int) -> bool {
    &&& raw.get("inbounds"@) == Some(JsonV::Array(s))
    &&& 0 <= i < s.len()
    &&& s[i].get("protocol"@) == Some(JsonV::Str("vless"@))
    &&& forall|j: int|
        0 <= j < i ==> (#[trigger] s[j]).get("protocol"@) != Some(JsonV::Str("vless"@))
}

/// `a` is the array at `settings.clients` of the first VLESS inbound.
pub open spec fn main_clients(raw: JsonV, s: Seq<JsonV>, i: int, a: Seq<JsonV>) -> bool {
    &&& main_inbound(raw, s, i)
    &&& s[i].get("settings"@) matches Some(st) && st.get("clients"@) == Some(JsonV::Array(a))
}

/// A client as the server writes it: an object with a text as its id. Its flow is a text if it has
/// one, its email is a text or null if it has one, and its level is a 32-bit number or null.
pub open spec fn plain_client(c: JsonV) -> bool {
    &&& c is Object
    &&& c.get("id"@) matches Some(JsonV::Str(_))
    &&& match c.get("flow"@) {
        None => true,
        Some(JsonV::Str(_)) => true,
        _ => false,
    }
    &&& match c.get("email"@) {
        None => true,
        Some(JsonV::Null) => true,
        Some(JsonV::Str(_)) => true,
        _ => false,
    }
    &&& match c.get("level"@) {
        None => true,
        Some(JsonV::Null) => true,
        Some(JsonV::UInt(n)) => n <= u32::MAX,
        _ => false,
    }
}

proof fn lemma_main_inbound_from(s: Seq<JsonV>, i: int, k: int)
    requires
        0 <= k <= i < s.len(),
        s[i].get("protocol"@) == Some(JsonV::Str("vless"@)),
        forall|j: int|
            0 <= j < i ==> (#[trigger] s[j]).get("protocol"@) != Some(JsonV::Str("vless"@)),
    ensures
        types::first_vless(s, k) == Some(i),
    decreases i - k,
{
    if k < i {
        assert(s[k].get("protocol"@) != Some(JsonV::Str("vless"@)));
        lemma_main_inbound_from(s, i, k + 1);
    }
}

/// The first of the inbounds whose protocol is `vless` is the one that is read.
pub proof fn lemma_main_inbound(raw: JsonV, s: Seq<JsonV>, i: int)
    requires
        main_inbound(raw, s, i),
    ensures
        types::inbounds(raw) == s,
        types::first_vless(s, 0) == Some(i),
        types::vless_inbound(raw) == Some(s[i]),
{
    lemma_main_inbound_from(s, i, 0);
}

proof fn lemma_main_clients(raw: JsonV, s: Seq<JsonV>, i: int, a: Seq<JsonV>)
    requires
        main_clients(raw, s, i, a),
    ensures
        types::clients_array(raw) == Some(a),
{
    lemma_main_inbound(raw, s, i);
}

proof fn lemma_plain_client(c: JsonV)
    requires
        plain_client(c),
    ensures
        types::client_of(c) matches Some(v) && {
            &&& c.get("id"@) == Some(JsonV::Str(v.id))
            &&& match c.get("flow"@) {
                Some(JsonV::Str(f)) => v.flow == f,
                _ => v.flow == Seq::<char>::empty(),
            }
            &&& match c.get("email"@) {
                Some(JsonV::Str(e)) => v.email == Some(e),
                _ => v.email is None,
            }
        },
{
    assert(record::field(c, "id"@, 0) == c.get("id"@));
    assert(record::field(c, "flow"@, 1) == c.get("flow"@));
    assert(record::field(c, "email"@, 2) == c.get("email"@));
    assert(record::field(c, "level"@, 3) == c.get("level"@));
}

proof fn lemma_plain_clients(raw: JsonV, s: Seq<JsonV>, i: int, a: Seq<JsonV>)
    requires
        main_clients(raw, s, i, a),
        forall|k: int| 0 <= k < a.len() ==> plain_client(#[trigger] a[k]),
    ensures
        types::clients_of(raw).len() == a.len(),
        forall|k: int|
            0 <= k < a.len() ==> Some(#[trigger] types::clients_of(raw)[k]) == types::client_of(
                a[k],
            ),
{
    lemma_main_clients(raw, s, i, a);
    assert forall|k: int| 0 <= k < a.len() implies types::client_of(#[trigger] a[k]) is Some by {
        lemma_plain_client(a[k]);
    }
    assert(types::all_clients(a));
}

/// What the table calls the client of that id: the name of its first entry with that id, and
/// `unknown` where it has none.
pub open spec fn table_calls(table: ClientsTable, id: Seq<char>, name: Seq<char>) -> bool {
    ||| exists|i: int|
        #![trigger table.entries@[i]]
        0 <= i < table.entries@.len() && table.entries@[i].client_id@ == id
            && table.entries@[i].user_data.client_name@ == name && forall|j: int|
            0 <= j < i ==> (#[trigger] table.entries@[j]).client_id@ != id
    ||| name == "unknown"@ && forall|j: int|
        0 <= j < table.entries@.len() ==> (#[trigger] table.entries@[j]).client_id@ != id
}

proof fn lemma_table_calls(table: ClientsTable, id: Seq<char>)
    ensures
        match table::name_of(table@, id) {
            Some(n) => table_calls(table, id, n),
            None => table_calls(table, id, "unknown"@) && forall|j: int|
                0 <= j < table.entries@.len() ==> (#[trigger] table.entries@[j]).client_id@ != id,
        },
{
    table::lemma_entry_index(table@, id, 0);
    match table::entry_index(table@, id, 0) {
        Some(i) => {
            assert(table.entries@[i].client_id@ == table@[i].id);
            assert forall|j: int| 0 <= j < i implies (#[trigger] table.entries@[j]).client_id@
                != id by {
                assert(table@[j].id != id);
            }
        },
        None => {
            assert forall|j: int| 0 <= j < table.entries@.len() implies (
            #[trigger] table.entries@[j]).client_id@ != id by {
                assert(table@[j].id != id);
            }
        },
    }
}

/// **The users are the clients of the server, in order, each under its own name.** With `a` the array
/// at `settings.clients` of the first VLESS inbound: there is one user for each client. It has the
/// id and the flow of that client; its name is that of the first entry of the table with the same id,
/// or `unknown`; its email is that of the client, else its name with `@vpn` behind it. No traffic and
/// no connection is counted yet.
pub proof fn law_users_are_the_clients(
    config: ServerConfig,
    table: ClientsTable,
    r: Vec<XrayUser>,
    s: Seq<JsonV>,
    i: int,
    a: Seq<JsonV>,
)
    requires
        call_ensures(merge_users, (&config, &table), r),
        main_clients(config@, s, i, a),
        forall|k: int| 0 <= k < a.len() ==> plain_client(#[trigger] a[k]),
    ensures
        r@.len() == a.len(),
        forall|k: int|
            0 <= k < a.len() ==> {
                let u = #[trigger] r@[k];
                &&& a[k].get("id"@) == Some(JsonV::Str(u.uuid@))
                &&& table_calls(table, u.uuid@, u.name@)
                &&& match a[k].get("email"@) {
                    Some(JsonV::Str(e)) => u.email@ == e,
                    _ => u.email@ == u.name@ + "@vpn"@,
                }
                &&& match a[k].get("flow"@) {
                    Some(JsonV::Str(f)) => u.flow@ == f,
                    _ => u.flow@ == Seq::<char>::empty(),
                }
                &&& u.stats.uplink == 0 && u.stats.downlink == 0 && u.online_count == 0
            },
{
    lemma_plain_clients(config@, s, i, a);
    let us = table::users_of(config@, table@);
    assert(table::user_views(r@).len() == r@.len());
    assert forall|k: int| 0 <= k < a.len() implies {
        let u = #[trigger] r@[k];
        &&& a[k].get("id"@) == Some(JsonV::Str(u.uuid@))
        &&& table_calls(table, u.uuid@, u.name@)
        &&& match a[k].get("email"@) {
            Some(JsonV::Str(e)) => u.email@ == e,
            _ => u.email@ == u.name@ + "@vpn"@,
        }
        &&& match a[k].get("flow"@) {
            Some(JsonV::Str(f)) => u.flow@ == f,
            _ => u.flow@ == Seq::<char>::empty(),
        }
        &&& u.stats.uplink == 0 && u.stats.downlink == 0 && u.online_count == 0
    } by {
        lemma_plain_client(a[k]);
        let c = types::clients_of(config@)[k];
        assert(types::client_of(a[k]) == Some(c));
        assert(table::user_views(r@)[k] == r@[k]@);
        assert(us[k] == table::user_of(c, table@));
        lemma_table_calls(table, c.id);
    }
}

/// **A name is taken exactly where a client has its email**: the email is looked up among those of
/// all clients of the first VLESS inbound, as a whole.
pub proof fn law_email_is_taken_by_a_client(
    config: ServerConfig,
    email: &str,
    r: bool,
    s: Seq<JsonV>,
    i: int,
    a: Seq<JsonV>,
)
    requires
        call_ensures(ServerConfig::has_client_email, (&config, email), r),
        main_clients(config@, s, i, a),
        forall|k: int| 0 <= k < a.len() ==> plain_client(#[trigger] a[k]),
    ensures
        r <==> exists|k: int|
            0 <= k < a.len() && (#[trigger] a[k]).get("email"@) == Some(JsonV::Str(email@)),
{
    lemma_plain_clients(config@, s, i, a);
    let cs = types::clients_of(config@);
    if r {
        let k = choose|k: int|
            0 <= k < cs.len() && (#[trigger] cs[k]).email == Some(email@);
        lemma_plain_client(a[k]);
        assert(types::client_of(a[k]) == Some(cs[k]));
        assert(a[k].get("email"@) == Some(JsonV::Str(email@)));
    }
    if exists|k: int|
        0 <= k < a.len() && (#[trigger] a[k]).get("email"@) == Some(JsonV::Str(email@)) {
        let k = choose|k: int|
            0 <= k < a.len() && (#[trigger] a[k]).get("email"@) == Some(JsonV::Str(email@));
        lemma_plain_client(a[k]);
        assert(types::client_of(a[k]) == Some(cs[k]));
        assert(cs[k].email == Some(email@));
    }
}

/// **A name is looked up as a whole** in the table: it is there exactly where an entry has it.
pub proof fn law_name_is_taken_by_an_entry(table: ClientsTable, name: &str, r: bool)
    requires
        call_ensures(ClientsTable::has_name, (&table, name), r),
    ensures
        r <==> exists|k: int|
            0 <= k < table.entries@.len() && (
            #[trigger] table.entries@[k]).user_data.client_name@ == name@,
{
    lemma_named_entry(table, name@);
}

/// **Names and ids are found from each other as wholes**: the name of an id is that of the first
/// entry with that id, and the id of a name that of the first entry with that name.
pub proof fn law_entries_are_found(
    table: ClientsTable,
    id: &str,
    name: Option<&str>,
    asked: &str,
    uuid: Option<&str>,
)
    requires
        call_ensures(ClientsTable::name_for_uuid, (&table, id), name),
        call_ensures(ClientsTable::uuid_for_name, (&table, asked), uuid),
    ensures
        match name {
            Some(n) => exists|i: int|
                #![trigger table.entries@[i]]
                0 <= i < table.entries@.len() && table.entries@[i].client_id@ == id@
                    && table.entries@[i].user_data.client_name@ == n@ && forall|j: int|
                    0 <= j < i ==> (#[trigger] table.entries@[j]).client_id@ != id@,
            None => forall|j: int|
                0 <= j < table.entries@.len() ==> (#[trigger] table.entries@[j]).client_id@ != id@,
        },
        match uuid {
            Some(u) => exists|i: int|
                #![trigger table.entries@[i]]
                0 <= i < table.entries@.len() && table.entries@[i].user_data.client_name@ == asked@
                    && table.entries@[i].client_id@ == u@ && forall|j: int|
                    0 <= j < i ==> (#[trigger] table.entries@[j]).user_data.client_name@ != asked@,
            None => forall|j: int|
                0 <= j < table.entries@.len() ==> (
                #[trigger] table.entries@[j]).user_data.client_name@ != asked@,
        },
{
    table::lemma_entry_index(table@, id@, 0);
    match table::entry_index(table@, id@, 0) {
        Some(i) => {
            assert(table.entries@[i].client_id@ == table@[i].id);
            assert forall|j: int| 0 <= j < i implies (#[trigger] table.entries@[j]).client_id@
                != id@ by {
                assert(table@[j].id != id@);
            }
        },
        None => {
            assert forall|j: int| 0 <= j < table.entries@.len() implies (
            #[trigger] table.entries@[j]).client_id@ != id@ by {
                assert(table@[j].id != id@);
            }
        },
    }
    lemma_named_entry(table, asked@);
}

proof fn lemma_named_entry(table: ClientsTable, name: Seq<char>)
    ensures
        match table::name_index(table@, name, 0) {
            Some(i) => 0 <= i < table.entries@.len() && table.entries@[i].user_data.client_name@
                == name && table.entries@[i].client_id@ == table@[i].id && forall|j: int|
                0 <= j < i ==> (#[trigger] table.entries@[j]).user_data.client_name@ != name,
            None => forall|j: int|
                0 <= j < table.entries@.len() ==> (
                #[trigger] table.entries@[j]).user_data.client_name@ != name,
        },
{
    table::lemma_name_index(table@, name, 0);
    match table::name_index(table@, name, 0) {
        Some(i) => {
            assert(table.entries@[i].user_data.client_name@ == table@[i].name);
            assert forall|j: int| 0 <= j < i implies (
            #[trigger] table.entries@[j]).user_data.client_name@ != name by {
                assert(table@[j].name != name);
            }
        },
        None => {
            assert forall|j: int| 0 <= j < table.entries@.len() implies (
            #[trigger] table.entries@[j]).user_data.client_name@ != name by {
                assert(table@[j].name != name);
            }
        },
    }
}

// ---- writing ----

/// The two documents differ in the clients of the first VLESS inbound at most, and these are `b` in
/// the new one.
pub open spec fn only_clients_differ(
    raw: JsonV,
    new: JsonV,
    s: Seq<JsonV>,
    i: int,
    b: Seq<JsonV>,
) -> bool {
    &&& forall|k: Seq<char>| k != "inbounds"@ ==> #[trigger] new.get(k) == raw.get(k)
    &&& new.get("inbounds"@) matches Some(JsonV::Array(t)) && {
        &&& t.len() == s.len()
        &&& forall|j: int| 0 <= j < s.len() && j != i ==> #[trigger] t[j] == s[j]
        &&& forall|k: Seq<char>| k != "settings"@ ==> #[trigger] t[i].get(k) == s[i].get(k)
        &&& match (t[i].get("settings"@), s[i].get("settings"@)) {
            (Some(n), Some(o)) => n.get("clients"@) == Some(JsonV::Array(b)) && forall|
                k: Seq<char>,
            |
                k != "clients"@ ==> #[trigger] n.get(k) == o.get(k),
            _ => false,
        }
    }
}

proof fn lemma_only_clients_differ(
    raw: JsonV,
    s: Seq<JsonV>,
    i: int,
    a: Seq<JsonV>,
    b: Seq<JsonV>,
)
    requires
        main_clients(raw, s, i, a),
    ensures
        only_clients_differ(raw, types::with_clients(raw, b), s, i, b),
{
    lemma_main_inbound(raw, s, i);
}

/// An entry of `clientsTable` as it stands in the file.
pub open spec fn entry_written(j: JsonV, id: Seq<char>, name: Seq<char>, date: Seq<char>) -> bool {
    &&& j.get("clientId"@) == Some(JsonV::Str(id))
    &&& j.get("userData"@) matches Some(d) && d.get("clientName"@) == Some(JsonV::Str(name))
        && d.get("creationDate"@) == Some(JsonV::Str(date))
}

proof fn lemma_entry_written(e: EntryV)
    ensures
        entry_written(table::entry_json(e), e.id, e.name, e.date),
{
    reveal_strlit("clientId");
    reveal_strlit("userData");
    reveal_strlit("clientName");
    reveal_strlit("creationDate");
    assert("clientId"@[0] == 'c' && "userData"@[0] == 'u');
    assert("clientName"@.len() == 10 && "creationDate"@.len() == 12);
}

/// The command replaces `server.json` by that document.
pub open spec fn writes_config(cmd: String, new: JsonV) -> bool {
    cmd@ == commands::write_cmd("/opt/amnezia/xray/server.json"@, codec::pretty_text(new))
}

/// The command replaces `clientsTable` by an array of these values.
pub open spec fn writes_table(cmd: String, t: Seq<JsonV>) -> bool {
    cmd@ == commands::write_cmd(
        "/opt/amnezia/xray/clientsTable"@,
        codec::pretty_text(JsonV::Array(t)),
    )
}

/// **A new user is one client more.** What is written to `server.json` has the clients as they were
/// and one behind them, with the new id, the email of the name, no flow and the level 0; nothing else
/// of the document changes.
pub proof fn law_new_user_is_one_client_more(
    name: String,
    uuid: String,
    config: ServerConfig,
    o: CommandOutput,
    r: AddUser,
    s: Seq<JsonV>,
    i: int,
    a: Seq<JsonV>,
)
    requires
        call_ensures(
            AddUser::next,
            (AddUser::Backup { name, uuid, config }, Reply::Output(o)),
            r,
        ),
        o.success,
        main_clients(config@, s, i, a),
    ensures
        r is WriteConfig,
        r->WriteConfig_name@ == name@,
        r->WriteConfig_uuid@ == uuid@,
        exists|new: JsonV, c: JsonV|
            #![trigger only_clients_differ(config@, new, s, i, a.push(c))]
            {
                &&& only_clients_differ(config@, new, s, i, a.push(c))
                &&& writes_config(r->WriteConfig_cmd, new)
                &&& c.get("id"@) == Some(JsonV::Str(uuid@))
                &&& c.get("email"@) == Some(JsonV::Str(name@ + "@vpn"@))
                &&& c.get("flow"@) == Some(JsonV::Str(Seq::empty()))
                &&& c.get("level"@) == Some(JsonV::UInt(0))
            },
{
    lemma_main_clients(config@, s, i, a);
    let c = types::client_json(client::new_client(name@, uuid@));
    let new = types::with_clients(config@, a.push(c));
    lemma_only_clients_differ(config@, s, i, a, a.push(c));
    lemma_client_members();
    assert(only_clients_differ(config@, new, s, i, a.push(c)));
    assert(writes_config(r->WriteConfig_cmd, new));
}

proof fn lemma_client_members()
    ensures
        "id"@ != "flow"@,
        "id"@ != "email"@,
        "id"@ != "level"@,
        "flow"@ != "email"@,
        "flow"@ != "level"@,
        "email"@ != "level"@,
{
    reveal_strlit("id");
    reveal_strlit("flow");
    reveal_strlit("email");
    reveal_strlit("level");
    assert("id"@.len() == 2 && "flow"@.len() == 4 && "email"@.len() == 5 && "level"@.len() == 5);
    assert("email"@[0] == 'e' && "level"@[0] == 'l');
}

/// **A new user is one entry more.** What is written to `clientsTable` has the entries as they were
/// and one behind them, with the new id and the name.
pub proof fn law_new_user_is_one_entry_more(
    name: String,
    uuid: String,
    t: ClientsTable,
    r: AddUser,
)
    requires
        call_ensures(AddUser::next, (AddUser::ReadTable { name, uuid }, Reply::Table(t)), r),
    ensures
        r is WriteTable,
        r->WriteTable_name@ == name@,
        r->WriteTable_uuid@ == uuid@,
        exists|w: Seq<JsonV>|
            #![trigger writes_table(r->WriteTable_cmd, w)]
            {
                &&& writes_table(r->WriteTable_cmd, w)
                &&& w.len() == t.entries@.len() + 1
                &&& forall|k: int|
                    0 <= k < t.entries@.len() ==> {
                        let e = #[trigger] t.entries@[k];
                        entry_written(
                            w[k],
                            e.client_id@,
                            e.user_data.client_name@,
                            e.user_data.creation_date@,
                        )
                    }
                &&& entry_written(w.last(), uuid@, name@, Seq::empty())
            },
{
    let new = t@.push((EntryV { id: uuid@, name: name@, date: Seq::empty() }));
    let w = Seq::new(new.len(), |k: int| table::entry_json(new[k]));
    assert(JsonV::Array(w) == table::table_json(new));
    assert(writes_table(r->WriteTable_cmd, w));
    assert forall|k: int| 0 <= k < t.entries@.len() implies {
        let e = #[trigger] t.entries@[k];
        entry_written(w[k], e.client_id@, e.user_data.client_name@, e.user_data.creation_date@)
    } by {
        assert(new[k] == t.entries@[k]@);
        lemma_entry_written(new[k]);
    }
    lemma_entry_written(new.last());
}

/// **The running server is told of the user that was written**: of its id and the email of its name,
/// for the VLESS inbound.
pub proof fn law_server_is_told_of_the_new_user(
    name: String,
    uuid: String,
    cmd: String,
    o: CommandOutput,
    r: AddUser,
)
    requires
        call_ensures(
            AddUser::next,
            (AddUser::WriteTable { name, uuid, cmd }, Reply::Output(o)),
            r,
        ),
        o.success,
    ensures
        r is Announce,
        r->Announce_uuid@ == uuid@,
        exists|j: JsonV|
            #![trigger codec::compact_text(j)]
            {
                &&& r->Announce_cmd@ == commands::adu_cmd(codec::compact_text(j))
                &&& tells_of(j, uuid@, name@ + "@vpn"@, "vless-in"@)
            },
{
    lemma_tells_of(uuid@, name@ + "@vpn"@, "vless-in"@);
}

/// The call names the inbound, the email and the id.
pub open spec fn tells_of(
    j: JsonV,
    uuid: Seq<char>,
    email: Seq<char>,
    inbound: Seq<char>,
) -> bool {
    &&& j.get("inboundTag"@) == Some(JsonV::Str(inbound))
    &&& j.get("user"@) matches Some(u) && {
        &&& u.get("email"@) == Some(JsonV::Str(email))
        &&& u.get("level"@) == Some(JsonV::UInt(0))
        &&& u.get("account"@) matches Some(c) && c.get("id"@) == Some(JsonV::Str(uuid)) && c.get(
            "encryption"@,
        ) == Some(JsonV::Str("none"@))
    }
}

proof fn lemma_tells_of(uuid: Seq<char>, email: Seq<char>, inbound: Seq<char>)
    ensures
        tells_of(crate::xray::urls::adu_call(uuid, email, inbound), uuid, email, inbound),
{
    reveal_strlit("inboundTag");
    reveal_strlit("user");
    reveal_strlit("email");
    reveal_strlit("level");
    reveal_strlit("account");
    reveal_strlit("id");
    reveal_strlit("encryption");
    assert("inboundTag"@[0] == 'i' && "user"@[0] == 'u');
    assert("email"@[0] == 'e' && "level"@[0] == 'l' && "account"@[0] == 'a');
    assert("id"@[0] == 'i' && "encryption"@[0] == 'e');
}

/// **The call for a new user names what it was given**, and is read back as such.
pub proof fn law_call_names_the_user(uuid: &str, email: &str, tag: &str, j: Json, t: String)
    requires
        call_ensures(build_adu_call, (uuid, email, tag), j),
        call_ensures(build_adu_json, (uuid, email, tag), t),
    ensures
        tells_of(j@, uuid@, email@, tag@),
        codec::json_of_text(t@) == Ok::<JsonV, Seq<char>>(j@),
{
    lemma_tells_of(uuid@, email@, tag@);
}

/// **A name is refused exactly where it cannot be a user's**: it holds nothing but white space, or it
/// holds `@` or `>>>`. A name that is not refused is taken over as it is, with the id.
pub proof fn law_bad_names_are_refused(name: &str, uuid: &str, r: AddUser)
    requires
        call_ensures(AddUser::start, (name, uuid), r),
    ensures
        r is Failed <==> {
            ||| forall|i: int| 0 <= i < name@.len() ==> text::is_space(#[trigger] name@[i])
            ||| name@.contains('@')
            ||| exists|i: int|
                0 <= i && i + 3 <= name@.len() && #[trigger] name@[i] == '>' && name@[i + 1] == '>'
                    && name@[i + 2] == '>'
        },
        r is Failed || (r is ReadConfig && r->ReadConfig_name@ == name@ && r->ReadConfig_uuid@
            == uuid@),
{
    text::law_trimming_empties_blanks(name@);
    reveal_strlit(">>>");
    text::lemma_find_from(name@, ">>>"@, 0);
    let p = ">>>"@;
    match text::find(name@, p) {
        Some(k) => {
            assert(name@.subrange(k, k + 3)[0] == p[0]);
            assert(name@.subrange(k, k + 3)[1] == p[1]);
            assert(name@.subrange(k, k + 3)[2] == p[2]);
            assert(name@[k] == '>' && name@[k + 1] == '>' && name@[k + 2] == '>');
        },
        None => {
            assert forall|i: int| 0 <= i && i + 3 <= name@.len() implies !(#[trigger] name@[i]
                == '>' && name@[i + 1] == '>' && name@[i + 2] == '>') by {
                assert(!text::matches_at(name@, p, i));
                if name@[i] == '>' && name@[i + 1] == '>' && name@[i + 2] == '>' {
                    assert(name@.subrange(i, i + 3) =~= p);
                }
            }
        },
    }
}

/// **A taken name is refused before anything changes**: adding a user goes on from the document
/// exactly where no client has the email of the name, and with that document.
pub proof fn law_taken_email_is_refused(
    name: String,
    uuid: String,
    config: ServerConfig,
    r: AddUser,
    s: Seq<JsonV>,
    i: int,
    a: Seq<JsonV>,
)
    requires
        call_ensures(
            AddUser::next,
            (AddUser::ReadConfig { name, uuid }, Reply::Config(config)),
            r,
        ),
        main_clients(config@, s, i, a),
        forall|k: int| 0 <= k < a.len() ==> plain_client(#[trigger] a[k]),
    ensures
        if exists|k: int|
            0 <= k < a.len() && (#[trigger] a[k]).get("email"@) == Some(
                JsonV::Str(name@ + "@vpn"@),
            ) {
            r matches AddUser::Failed { error: AppError::Xray(m) } && m@ == "user '"@ + name@
                + "' already exists"@
        } else {
            r == (AddUser::Backup { name, uuid, config })
        },
{
    lemma_plain_clients(config@, s, i, a);
    let cs = types::clients_of(config@);
    let email = name@ + "@vpn"@;
    assert forall|k: int| 0 <= k < a.len() implies (#[trigger] cs[k]).email == Some(email)
        <==> a[k].get("email"@) == Some(JsonV::Str(email)) by {
        lemma_plain_client(a[k]);
        assert(types::client_of(a[k]) == Some(cs[k]));
    }
    if exists|k: int|
        0 <= k < a.len() && (#[trigger] a[k]).get("email"@) == Some(JsonV::Str(email)) {
        let k = choose|k: int|
            0 <= k < a.len() && (#[trigger] a[k]).get("email"@) == Some(JsonV::Str(email));
        assert(cs[k].email == Some(email));
        assert(client::email_taken(config@, email));
    } else if client::email_taken(config@, email) {
        let k = choose|k: int| 0 <= k < cs.len() && (#[trigger] cs[k]).email == Some(email);
        assert(a[k].get("email"@) == Some(JsonV::Str(email)));
    }
}

// ---- removing ----

/// **Removing a user takes its clients and no others.** What is written to `server.json` has all the
/// clients whose id is another one, in their order; nothing else of the document changes.
pub proof fn law_removal_takes_its_clients_only(
    uuid: String,
    cmd: String,
    config: ServerConfig,
    table: ClientsTable,
    o: CommandOutput,
    r: RemoveUser,
    s: Seq<JsonV>,
    i: int,
    a: Seq<JsonV>,
)
    requires
        call_ensures(
            RemoveUser::next,
            (RemoveUser::Revoke { uuid, cmd, config, table }, Reply::Output(o)),
            r,
        ),
        o.success,
        main_clients(config@, s, i, a),
    ensures
        r is WriteConfig,
        r->WriteConfig_uuid@ == uuid@,
        r->WriteConfig_table == table,
        exists|new: JsonV|
            #![trigger writes_config(r->WriteConfig_cmd, new)]
            writes_config(r->WriteConfig_cmd, new) && only_clients_differ(
                config@,
                new,
                s,
                i,
                a.filter(|c: JsonV| c.get("id"@) != Some(JsonV::Str(uuid@))),
            ),
{
    lemma_main_clients(config@, s, i, a);
    let p = |c: JsonV| c.get("id"@) != Some(JsonV::Str(uuid@));
    assert(types::not_id(uuid@) =~= p);
    let new = types::with_clients(config@, a.filter(p));
    lemma_only_clients_differ(config@, s, i, a, a.filter(p));
    assert(writes_config(r->WriteConfig_cmd, new));
}

/// **Removing a user takes its entries and no others.** What is written to `clientsTable` are the
/// entries whose id is another one, in their order.
pub proof fn law_removal_takes_its_entries_only(
    uuid: String,
    cmd: String,
    table: ClientsTable,
    o: CommandOutput,
    r: RemoveUser,
)
    requires
        call_ensures(
            RemoveUser::next,
            (RemoveUser::WriteConfig { uuid, cmd, table }, Reply::Output(o)),
            r,
        ),
        o.success,
    ensures
        r is WriteTable,
        exists|w: Seq<JsonV>, kept: Seq<EntryV>|
            #![trigger writes_table(r->WriteTable_cmd, w), kept.len()]
            {
                &&& writes_table(r->WriteTable_cmd, w)
                &&& kept == table@.filter(|e: EntryV| e.id != uuid@)
                &&& w.len() == kept.len()
                &&& forall|k: int|
                    0 <= k < kept.len() ==> entry_written(
                        #[trigger] w[k],
                        kept[k].id,
                        kept[k].name,
                        kept[k].date,
                    )
            },
{
    let p = |e: EntryV| e.id != uuid@;
    assert(table::other_than(uuid@) =~= p);
    let kept = table@.filter(p);
    let w = Seq::new(kept.len(), |k: int| table::entry_json(kept[k]));
    assert(JsonV::Array(w) == table::table_json(kept));
    assert(writes_table(r->WriteTable_cmd, w));
    assert forall|k: int| 0 <= k < kept.len() implies entry_written(
        #[trigger] w[k],
        kept[k].id,
        kept[k].name,
        kept[k].date,
    ) by {
        lemma_entry_written(kept[k]);
    }
    assert(kept.len() == w.len());
}

proof fn lemma_client_index(cs: Seq<types::ClientV>, id: Seq<char>, i: int)
    requires
        0 <= i,
    ensures
        match client::client_index(cs, id, i) {
            Some(k) => i <= k < cs.len() && cs[k].id == id && forall|j: int|
                i <= j < k ==> (#[trigger] cs[j]).id != id,
            None => forall|j: int| i <= j < cs.len() ==> (#[trigger] cs[j]).id != id,
        },
    decreases cs.len() - i,
{
    if i < cs.len() && cs[i].id != id {
        lemma_client_index(cs, id, i + 1);
    }
}

/// **A user's access is revoked under its own email**: that of the first client with its id, if it
/// has one; else the email of the name that the table gives the id. A user that neither document
/// knows by its id has no email.
pub proof fn law_email_is_the_users_own(
    config: ServerConfig,
    table: ClientsTable,
    uuid: &str,
    r: Option<String>,
    s: Seq<JsonV>,
    i: int,
    a: Seq<JsonV>,
    k: int,
)
    requires
        call_ensures(find_email, (&config, &table, uuid), r),
        main_clients(config@, s, i, a),
        forall|k: int| 0 <= k < a.len() ==> plain_client(#[trigger] a[k]),
        0 <= k <= a.len(),
        forall|j: int|
            0 <= j < k ==> (#[trigger] a[j]).get("id"@) != Some(JsonV::Str(uuid@)),
        k < a.len() ==> a[k].get("id"@) == Some(JsonV::Str(uuid@)),
    ensures
        k < a.len() && (a[k].get("email"@) matches Some(JsonV::Str(_))) ==> (r matches Some(e)
            && a[k].get("email"@) == Some(JsonV::Str(e@))),
        k == a.len() || !(a[k].get("email"@) matches Some(JsonV::Str(_))) ==> match r {
            Some(e) => exists|n: Seq<char>|
                #![trigger table_calls(table, uuid@, n)]
                table_calls(table, uuid@, n) && e@ == n + "@vpn"@,
            None => forall|j: int|
                0 <= j < table.entries@.len() ==> (#[trigger] table.entries@[j]).client_id@
                    != uuid@,
        },
{
    lemma_plain_clients(config@, s, i, a);
    let cs = types::clients_of(config@);
    lemma_client_index(cs, uuid@, 0);
    lemma_table_calls(table, uuid@);
    assert forall|j: int| 0 <= j < a.len() implies ((#[trigger] cs[j]).id == uuid@ <==> a[j].get(
        "id"@,
    ) == Some(JsonV::Str(uuid@))) by {
        lemma_plain_client(a[j]);
        assert(types::client_of(a[j]) == Some(cs[j]));
    }
    match client::client_index(cs, uuid@, 0) {
        Some(x) => {
            assert(cs[x].id == uuid@);
            if x < k {
                assert(a[x].get("id"@) != Some(JsonV::Str(uuid@)));
            }
            if k < x {
                assert(cs[k].id != uuid@);
            }
            assert(x == k);
            lemma_plain_client(a[k]);
            assert(types::client_of(a[k]) == Some(cs[k]));
        },
        None => {
            if k < a.len() {
                assert(cs[k].id != uuid@);
            }
        },
    }
}

/// **What is revoked is the email that was found**, by the command for that email.
pub proof fn law_revoked_email_is_the_one_found(
    uuid: String,
    config: ServerConfig,
    t: ClientsTable,
    id: &str,
    found: Option<String>,
    r: RemoveUser,
)
    requires
        id@ == uuid@,
        call_ensures(find_email, (&config, &t, id), found),
        call_ensures(
            RemoveUser::next,
            (RemoveUser::ReadTable { uuid, config }, Reply::Table(t)),
            r,
        ),
    ensures
        match found {
            Some(e) => r is Backup && r->Backup_email@ == e@ && r->Backup_uuid == uuid
                && r->Backup_config == config && r->Backup_table == t,
            None => r is Failed,
        },
{
}

// ---- renaming ----

/// **The user that is renamed is the one of the old name**: the id is that of the first entry with
/// the old name. It goes on only where there is one, and where no entry has the new name.
pub proof fn law_rename_finds_the_old_name(
    container: String,
    old_name: String,
    new_name: String,
    table: ClientsTable,
    c: ServerConfig,
    r: RenameUser,
)
    requires
        call_ensures(
            RenameUser::next,
            (RenameUser::ReadConfig { container, old_name, new_name, table }, Reply::Config(c)),
            r,
        ),
    ensures
        r is Backup || r is Failed,
        r is Backup <==> {
            &&& exists|i: int|
                0 <= i < table.entries@.len() && (
                #[trigger] table.entries@[i]).user_data.client_name@ == old_name@
            &&& forall|i: int|
                0 <= i < table.entries@.len() ==> (
                #[trigger] table.entries@[i]).user_data.client_name@ != new_name@
        },
        r matches RenameUser::Backup { container: k, old_name: o, new_name: n, uuid, table: t, config }
            ==> k == container && o == old_name && n == new_name && t == table && config == c
            && exists|i: int|
            #![trigger table.entries@[i]]
            0 <= i < table.entries@.len() && table.entries@[i].user_data.client_name@ == old_name@
                && table.entries@[i].client_id@ == uuid@ && forall|j: int|
                0 <= j < i ==> (#[trigger] table.entries@[j]).user_data.client_name@ != old_name@,
{
    lemma_named_entry(table, old_name@);
    lemma_named_entry(table, new_name@);
}

/// **Renaming changes a name and an email, and nothing else.** What is written to `clientsTable` has
/// the new name in the first entry with the id and all else as it was; what is written to
/// `server.json` has the email of the new name in the first client with the id and all else as it
/// was. The counter that is dropped is that of the old name's email.
pub proof fn law_rename_changes_name_and_email(
    container: String,
    old_name: String,
    new_name: String,
    uuid: String,
    table: ClientsTable,
    config: ServerConfig,
    o: CommandOutput,
    r: RenameUser,
    s: Seq<JsonV>,
    i: int,
    a: Seq<JsonV>,
    k: int,
)
    requires
        call_ensures(
            RenameUser::next,
            (
                RenameUser::Backup { container, old_name, new_name, uuid, table, config },
                Reply::Output(o),
            ),
            r,
        ),
        o.success,
        main_clients(config@, s, i, a),
        0 <= k < a.len(),
        a[k].get("id"@) == Some(JsonV::Str(uuid@)),
        forall|j: int|
            0 <= j < k ==> (#[trigger] a[j]).get("id"@) != Some(JsonV::Str(uuid@)),
    ensures
        r is DropCounter,
        r->DropCounter_container == container,
        r->DropCounter_cmd@ == commands::rmu_cmd(old_name@ + "@vpn"@),
        exists|new: JsonV, c: JsonV|
            #![trigger only_clients_differ(config@, new, s, i, a.update(k, c))]
            {
                &&& writes_config(r->DropCounter_write_config, new)
                &&& only_clients_differ(config@, new, s, i, a.update(k, c))
                &&& c.get("email"@) == Some(JsonV::Str(new_name@ + "@vpn"@))
                &&& forall|x: Seq<char>| x != "email"@ ==> #[trigger] c.get(x) == a[k].get(x)
            },
        exists|w: Seq<JsonV>|
            #![trigger writes_table(r->DropCounter_write_table, w)]
            {
                &&& writes_table(r->DropCounter_write_table, w)
                &&& w.len() == table.entries@.len()
                &&& forall|x: int|
                    0 <= x < w.len() ==> {
                        let e = #[trigger] table.entries@[x];
                        entry_written(
                            w[x],
                            e.client_id@,
                            if e.client_id@ == uuid@ && (forall|y: int|
                                0 <= y < x ==> (#[trigger] table.entries@[y]).client_id@ != uuid@) {
                                new_name@
                            } else {
                                e.user_data.client_name@
                            },
                            e.user_data.creation_date@,
                        )
                    }
            },
{
    lemma_main_clients(config@, s, i, a);
    types::lemma_first_id(a, uuid@, 0);
    let f = types::first_id(a, uuid@, 0);
    assert(types::has_id(a[k], uuid@));
    assert(f is Some);
    if f->0 < k {
        assert(a[f->0].get("id"@) != Some(JsonV::Str(uuid@)));
    }
    assert(f == Some(k));
    let c = a[k].put("email"@, JsonV::Str(new_name@ + "@vpn"@));
    let new = types::with_clients(config@, a.update(k, c));
    lemma_only_clients_differ(config@, s, i, a, a.update(k, c));
    assert(a[k] is Object);
    assert(writes_config(r->DropCounter_write_config, new));
    assert(only_clients_differ(config@, new, s, i, a.update(k, c)));
    let t = client::renamed_table(table@, uuid@, new_name@);
    let w = Seq::new(t.len(), |x: int| table::entry_json(t[x]));
    assert(JsonV::Array(w) == table::table_json(t));
    assert(writes_table(r->DropCounter_write_table, w));
    table::lemma_entry_index(table@, uuid@, 0);
    assert forall|x: int| 0 <= x < w.len() implies {
        let e = #[trigger] table.entries@[x];
        entry_written(
            w[x],
            e.client_id@,
            if e.client_id@ == uuid@ && (forall|y: int|
                0 <= y < x ==> (#[trigger] table.entries@[y]).client_id@ != uuid@) {
                new_name@
            } else {
                e.user_data.client_name@
            },
            e.user_data.creation_date@,
        )
    } by {
        lemma_entry_written(t[x]);
        let e = table.entries@[x];
        assert(table@[x] == e@);
        match table::entry_index(table@, uuid@, 0) {
            Some(m) => {
                if x < m {
                    assert(table@[x].id != uuid@);
                }
                if m < x {
                    assert(table@[m].id == table.entries@[m].client_id@);
                }
                if x == m {
                    assert forall|y: int| 0 <= y < x implies (
                    #[trigger] table.entries@[y]).client_id@ != uuid@ by {
                        assert(table@[y].id != uuid@);
                    }
                }
            },
            None => {
                assert(table@[x].id != uuid@);
            },
        }
    }
}

// ---- backups ----

/// **The backup that was asked for is restored, and no other.** Where a time was asked for it is
/// chosen exactly if it is listed; where none was, the first one listed is chosen.
pub proof fn law_backup_is_the_one_asked_for(
    backups: Vec<String>,
    asked: Option<String>,
    r: Result<String, AppError>,
)
    requires
        call_ensures(choose_backup, (&backups, &asked), r),
    ensures
        match asked {
            Some(t) => (r is Ok <==> exists|i: int|
                0 <= i < backups@.len() && (#[trigger] backups@[i])@ == t@) && (r matches Ok(x)
                ==> x@ == t@),
            None => (r is Ok <==> backups@.len() > 0) && (r matches Ok(x) ==> x@ == backups@[0]@),
        },
{
    let bs = text::texts(backups@);
    assert(bs.len() == backups@.len());
    if let Some(t) = asked {
        if bs.contains(t@) {
            let k = choose|k: int| 0 <= k < bs.len() && bs[k] == t@;
            assert(backups@[k]@ == t@);
        }
        if exists|i: int| 0 <= i < backups@.len() && (#[trigger] backups@[i])@ == t@ {
            let k = choose|k: int| 0 <= k < backups@.len() && (#[trigger] backups@[k])@ == t@;
            assert(bs[k] == t@);
            assert(bs.contains(t@));
        }
    } else if backups@.len() > 0 {
        assert(bs[0] == backups@[0]@);
    }
}

/// The line names the backup of that time: eight digits, a hyphen and six digits between the path of
/// `server.json` with a dot and `.bak`.
pub open spec fn names_backup(line: Seq<char>, t: Seq<char>) -> bool {
    &&& text::trimmed(line) == "/opt/amnezia/xray/server.json."@ + t + ".bak"@
    &&& t.len() == 15
    &&& forall|i: int|
        0 <= i < 15 ==> if i == 8 {
            #[trigger] t[i] == '-'
        } else {
            '0' <= t[i] <= '9'
        }
}

proof fn lemma_backup_prefix()
    ensures
        "/opt/amnezia/xray/server.json"@ + "."@ == "/opt/amnezia/xray/server.json."@,
{
    reveal_strlit("/opt/amnezia/xray/server.json");
    reveal_strlit(".");
    reveal_strlit("/opt/amnezia/xray/server.json.");
    assert("/opt/amnezia/xray/server.json"@ + "."@ =~= "/opt/amnezia/xray/server.json."@);
}

proof fn lemma_names_backup(line: Seq<char>)
    ensures
        match commands::line_timestamp(line) {
            Some(t) => names_backup(line, t),
            None => forall|t: Seq<char>| !#[trigger] names_backup(line, t),
        },
        forall|t: Seq<char>| #[trigger]
            names_backup(line, t) ==> commands::line_timestamp(line) == Some(t),
{
    lemma_backup_prefix();
    let l = text::trimmed(line);
    let p = "/opt/amnezia/xray/server.json."@;
    let q = ".bak"@;
    if let Some(t) = commands::line_timestamp(line) {
        assert(l =~= p + t + q);
    }
    assert forall|t: Seq<char>| #[trigger] names_backup(line, t) implies commands::line_timestamp(
        line,
    ) == Some(t) by {
        assert(p.is_prefix_of(l)) by {
            assert(l.subrange(0, p.len() as int) =~= p);
        }
        let rest = l.skip(p.len() as int);
        assert(rest =~= t + q);
        assert(q.is_suffix_of(rest)) by {
            assert(rest.subrange(rest.len() - q.len(), rest.len() as int) =~= q);
        }
        assert(rest.take(rest.len() - q.len()) =~= t);
        assert(commands::timestamp(t));
    }
}

proof fn lemma_backups_listed(lines: Seq<Seq<char>>)
    ensures
        forall|t: Seq<char>| #[trigger]
            commands::timestamps_in(lines).contains(t) <==> exists|i: int|
                0 <= i < lines.len() && names_backup(#[trigger] lines[i], t),
        forall|i: int|
            #![trigger lines[i]]
            0 <= i < lines.len() && (forall|j: int, t: Seq<char>|
                0 <= j < i ==> !#[trigger] names_backup(lines[j], t)) ==> forall|t: Seq<char>|
                #[trigger] names_backup(lines[i], t) ==> commands::timestamps_in(lines).len() > 0
                    && commands::timestamps_in(lines)[0] == t,
    decreases lines.len(),
{
    let all = commands::timestamps_in(lines);
    if lines.len() > 0 {
        let b = lines.drop_last();
        let bs = commands::timestamps_in(b);
        lemma_backups_listed(b);
        lemma_names_backup(lines.last());
        assert forall|t: Seq<char>| #[trigger] all.contains(t) implies exists|i: int|
            0 <= i < lines.len() && names_backup(#[trigger] lines[i], t) by {
            let k = choose|k: int| 0 <= k < all.len() && all[k] == t;
            if k < bs.len() {
                assert(bs[k] == t);
                assert(bs.contains(t));
                let i = choose|i: int| 0 <= i < b.len() && names_backup(#[trigger] b[i], t);
                assert(lines[i] == b[i]);
            } else {
                assert(lines[lines.len() - 1] == lines.last());
            }
        }
        assert forall|t: Seq<char>|
            (exists|i: int| 0 <= i < lines.len() && names_backup(#[trigger] lines[i], t)) implies
            #[trigger] all.contains(t) by {
            let i = choose|i: int| 0 <= i < lines.len() && names_backup(#[trigger] lines[i], t);
            if i < b.len() {
                assert(b[i] == lines[i]);
                assert(bs.contains(t));
                let k = choose|k: int| 0 <= k < bs.len() && bs[k] == t;
                assert(all[k] == t);
            } else {
                assert(all[all.len() - 1] == t);
            }
        }
        assert forall|i: int, t: Seq<char>|
            #![trigger names_backup(lines[i], t)]
            0 <= i < lines.len() && (forall|j: int, u: Seq<char>|
                0 <= j < i ==> !#[trigger] names_backup(lines[j], u)) && names_backup(
                lines[i],
                t,
            ) implies all.len() > 0 && all[0] == t by {
            if i < b.len() {
                assert forall|j: int, u: Seq<char>| 0 <= j < i implies !#[trigger] names_backup(
                    b[j],
                    u,
                ) by {
                    assert(b[j] == lines[j]);
                }
                assert(b[i] == lines[i]);
                assert(names_backup(b[i], t));
            } else {
                if bs.len() > 0 {
                    assert(bs.contains(bs[0]));
                    let j = choose|j: int| 0 <= j < b.len() && names_backup(#[trigger] b[j], bs[0]);
                    assert(b[j] == lines[j]);
                    assert(names_backup(lines[j], bs[0]));
                }
            }
        }
    }
}

/// **The listing gives the backups it names**: a time is listed exactly where a line names the backup
/// of that time, and the first one is that of the first such line, which is the newest.
pub proof fn law_listing_names_the_backups(listing: &str, r: Vec<String>, t: Seq<char>)
    requires
        call_ensures(parse_backup_timestamps, (listing,), r),
    ensures
        text::texts(r@).contains(t) <==> exists|i: int|
            0 <= i < text::lines(listing@).len() && names_backup(
                #[trigger] text::lines(listing@)[i],
                t,
            ),
        forall|i: int|
            #![trigger text::lines(listing@)[i]]
            0 <= i < text::lines(listing@).len() && names_backup(text::lines(listing@)[i], t) && (
            forall|j: int, u: Seq<char>|
                0 <= j < i ==> !#[trigger] names_backup(text::lines(listing@)[j], u)) ==> r@.len()
                > 0 && r@[0]@ == t,
{
    lemma_backups_listed(text::lines(listing@));
    assert(text::texts(r@).len() == r@.len());
    if r@.len() > 0 {
        assert(text::texts(r@)[0] == r@[0]@);
    }
}

// ---- traffic ----

/// **Each direction is counted by its own answer.** The upload of a user or of the server is the
/// counter in the answer for the upload and the download that in the answer for the download; one
/// that is missing is zero.
pub proof fn law_directions_are_not_mixed(
    c: XrayApiClient,
    version: CommandOutput,
    up: CommandOutput,
    down: CommandOutput,
    a: &str,
    b: &str,
    v: &str,
    x: Option<u64>,
    y: Option<u64>,
    w: String,
    stats: TrafficStats,
    info: ServerInfo,
)
    requires
        a@ == up.stdout@,
        b@ == down.stdout@,
        v@ == version.stdout@,
        call_ensures(crate::xray::answers::parse_stat_value, (a,), x),
        call_ensures(crate::xray::answers::parse_stat_value, (b,), y),
        call_ensures(crate::xray::answers::parse_version, (v,), w),
        call_ensures(XrayApiClient::get_user_stats, (&c, &up, &down), stats),
        call_ensures(XrayApiClient::get_server_info, (&c, &version, &up, &down), info),
    ensures
        stats.uplink == (match x {
            Some(n) => n,
            None => 0u64,
        }),
        stats.downlink == (match y {
            Some(n) => n,
            None => 0u64,
        }),
        info.uplink == stats.uplink,
        info.downlink == stats.downlink,
        info.version@ == w@,
{
}

/// **What the client is asked is what the functions give**: its users are the merged users, its
/// connections and addresses are those of the answer, and its backups those of the listing.
pub proof fn law_client_gives_what_was_read(
    c: XrayApiClient,
    config: ServerConfig,
    table: ClientsTable,
    o: CommandOutput,
    t: &str,
    users: Vec<XrayUser>,
    merged: Vec<XrayUser>,
    n: u32,
    m: Option<u32>,
    listed: Vec<String>,
    times: Vec<String>,
)
    requires
        t@ == o.stdout@,
        call_ensures(XrayApiClient::list_users, (&c, &config, &table), users),
        call_ensures(merge_users, (&config, &table), merged),
        call_ensures(XrayApiClient::get_online_count, (&c, &o), n),
        call_ensures(crate::xray::answers::parse_online_count, (t,), m),
        call_ensures(XrayApiClient::list_backups, (&c, &o), listed),
        call_ensures(parse_backup_timestamps, (t,), times),
    ensures
        users@.len() == merged@.len(),
        forall|i: int| 0 <= i < users@.len() ==> (#[trigger] users@[i])@ == merged@[i]@,
        n == (match m {
            Some(k) => k,
            None => 0u32,
        }),
        text::texts(listed@) == text::texts(times@),
{
    assert(table::user_views(users@).len() == users@.len());
    assert(table::user_views(merged@).len() == merged@.len());
    assert forall|i: int| 0 <= i < users@.len() implies (#[trigger] users@[i])@ == merged@[i]@ by {
        assert(table::user_views(users@)[i] == users@[i]@);
        assert(table::user_views(merged@)[i] == merged@[i]@);
    }
}

/// **A restore copies the backup that was found complete, and restarts the container it is for.**
pub proof fn law_restore_keeps_its_backup(s: RestoreConfig, p: Reply, r: RestoreConfig)
    requires
        client::answers_to(s.asks(), p),
        s.wf(),
        call_ensures(RestoreConfig::next, (s, p), r),
    ensures
        (s matches RestoreConfig::Validate { timestamp, container, .. } && r matches
            RestoreConfig::Copy { timestamp: t, container: c, cmd } && t == timestamp && c
            == container && cmd@ == "sh -c 'cp "@ + "/opt/amnezia/xray/server.json"@ + "."@
            + timestamp@ + ".bak "@ + "/opt/amnezia/xray/server.json"@ + " && cp "@
            + "/opt/amnezia/xray/clientsTable"@ + "."@ + timestamp@ + ".bak "@
            + "/opt/amnezia/xray/clientsTable"@ + "'"@) || !(s is Validate) || r is Failed,
        (s matches RestoreConfig::Copy { timestamp, container, .. } && r matches
            RestoreConfig::Restart { timestamp: t, cmd } && t == timestamp && cmd@
            == "docker restart "@ + commands::quoted(container@)) || !(s is Copy) || r is Failed,
        (s matches RestoreConfig::Restart { timestamp, .. } && r matches RestoreConfig::Done {
            timestamp: t,
        } && t == timestamp) || !(s is Restart) || r is Failed,
        p is Output && p->Output_0.success ==> (s is Validate ==> r is Copy) && (s is Copy ==> r is Restart) && (s is Restart ==> r is Done),
{
}

// ---- members of the document ----

/// **The inbound of the users is the first VLESS inbound**, and there is none where no inbound is one.
pub proof fn law_inbound_is_the_first(
    config: ServerConfig,
    s: Seq<JsonV>,
    i: int,
    r: Option<&Json>,
)
    requires
        call_ensures(ServerConfig::find_vless_inbound, (&config,), r),
    ensures
        main_inbound(config@, s, i) ==> (r matches Some(j) && j@ == s[i]),
        config@.get("inbounds"@) == Some(JsonV::Array(s)) && (forall|k: int|
            0 <= k < s.len() ==> (#[trigger] s[k]).get("protocol"@) != Some(JsonV::Str("vless"@)))
            ==> r is None,
        config@.get("inbounds"@) is None ==> r is None,
{
    if main_inbound(config@, s, i) {
        lemma_main_inbound(config@, s, i);
    }
    if config@.get("inbounds"@) == Some(JsonV::Array(s)) && (forall|k: int|
        0 <= k < s.len() ==> (#[trigger] s[k]).get("protocol"@) != Some(JsonV::Str("vless"@))) {
        types::lemma_first_vless(s, 0);
        if let Some(k) = types::first_vless(s, 0) {
            assert(s[k].get("protocol"@) != Some(JsonV::Str("vless"@)));
        }
    }
}

/// **The clients are read member by member, in order.**
pub proof fn law_clients_are_read(
    config: ServerConfig,
    s: Seq<JsonV>,
    i: int,
    a: Seq<JsonV>,
    r: Vec<ServerJsonClient>,
    k: int,
)
    requires
        call_ensures(ServerConfig::clients, (&config,), r),
        main_clients(config@, s, i, a),
        forall|k: int| 0 <= k < a.len() ==> plain_client(#[trigger] a[k]),
        0 <= k < a.len(),
    ensures
        r@.len() == a.len(),
        a[k].get("id"@) == Some(JsonV::Str(r@[k].id@)),
        match a[k].get("flow"@) {
            Some(JsonV::Str(f)) => r@[k].flow@ == f,
            _ => r@[k].flow@.len() == 0,
        },
        match a[k].get("email"@) {
            Some(JsonV::Str(e)) => r@[k].email matches Some(x) && x@ == e,
            _ => r@[k].email is None,
        },
        match a[k].get("level"@) {
            Some(JsonV::UInt(n)) => r@[k].level == Some(n as u32),
            _ => r@[k].level is None,
        },
{
    lemma_plain_clients(config@, s, i, a);
    let cs = types::clients_of(config@);
    assert(types::client_views(r@).len() == r@.len());
    assert(types::client_views(r@)[k] == r@[k]@);
    lemma_plain_client(a[k]);
    assert(Some(cs[k]) == types::client_of(a[k]));
    assert(record::field(a[k], "id"@, 0) == a[k].get("id"@));
    assert(record::field(a[k], "flow"@, 1) == a[k].get("flow"@));
    assert(record::field(a[k], "email"@, 2) == a[k].get("email"@));
    assert(record::field(a[k], "level"@, 3) == a[k].get("level"@));
}

/// **No client is read where one of them is none**: one that is a text, or has no id.
pub proof fn law_broken_clients_are_not_read(
    config: ServerConfig,
    s: Seq<JsonV>,
    i: int,
    a: Seq<JsonV>,
    r: Vec<ServerJsonClient>,
    k: int,
)
    requires
        call_ensures(ServerConfig::clients, (&config,), r),
        main_clients(config@, s, i, a),
        0 <= k < a.len(),
        a[k] is Str || (a[k] is Object && a[k].get("id"@) is None),
    ensures
        r@.len() == 0,
{
    lemma_main_clients(config@, s, i, a);
    assert(types::client_views(r@).len() == r@.len());
    assert(types::client_of(a[k]) is None);
}

/// **The email of a user is its name with `@vpn` behind it.**
pub proof fn law_email_of_a_name(name: &str, r: String)
    requires
        call_ensures(XrayUser::email_from_name, (name,), r),
    ensures
        r@.len() == name@.len() + 4,
        r@.take(name@.len() as int) == name@,
        r@.skip(name@.len() as int) == seq!['@', 'v', 'p', 'n'],
{
    reveal_strlit("@vpn");
    assert(r@.take(name@.len() as int) =~= name@);
    assert(r@.skip(name@.len() as int) =~= seq!['@', 'v', 'p', 'n']);
}

/// **An id is looked up as a whole**, and found at the first client that has it.
pub proof fn law_id_is_looked_up(a: Vec<Json>, id: &str, r: Option<usize>)
    requires
        call_ensures(types::id_index, (&a, id), r),
    ensures
        match r {
            Some(i) => i < a@.len() && a@[i as int]@.get("id"@) == Some(JsonV::Str(id@)) && forall|
                j: int,
            |
                0 <= j < i ==> (#[trigger] a@[j])@.get("id"@) != Some(JsonV::Str(id@)),
            None => forall|j: int|
                0 <= j < a@.len() ==> (#[trigger] a@[j])@.get("id"@) != Some(JsonV::Str(id@)),
        },
{
    let v = crate::json::views(a@);
    types::lemma_first_id(v, id@, 0);
    assert forall|j: int| 0 <= j < a@.len() implies v[j] == (#[trigger] a@[j])@ by {}
    match r {
        Some(i) => {
            assert(types::has_id(v[i as int], id@));
            assert forall|j: int| 0 <= j < i implies (#[trigger] a@[j])@.get("id"@) != Some(
                JsonV::Str(id@),
            ) by {
                assert(!types::has_id(v[j], id@));
            }
        },
        None => {
            assert forall|j: int| 0 <= j < a@.len() implies (#[trigger] a@[j])@.get("id"@) != Some(
                JsonV::Str(id@),
            ) by {
                assert(!types::has_id(v[j], id@));
            }
        },
    }
}

/// **A new email is given to the first client with the id**, and nothing else of the clients changes;
/// where no client has the id nothing changes at all.
pub proof fn law_new_email_is_given(
    config: &mut ServerConfig,
    uuid: &str,
    email: &str,
    s: Seq<JsonV>,
    i: int,
    a: Seq<JsonV>,
    k: int,
    m: Seq<char>,
    r: Result<bool, AppError>,
)
    requires
        call_ensures(ServerConfig::update_client_email, (config, uuid, email), r),
        main_clients(old(config)@, s, i, a),
    ensures
        0 <= k < a.len() && a[k].get("id"@) == Some(JsonV::Str(uuid@)) && (forall|j: int|
            0 <= j < k ==> (#[trigger] a[j]).get("id"@) != Some(JsonV::Str(uuid@))) ==> r == Ok::<
            bool,
            AppError,
        >(true) && exists|t: Seq<JsonV>, b: Seq<JsonV>|
            {
                &&& #[trigger] main_clients(final(config)@, t, i, b)
                &&& t.len() == s.len()
                &&& b.len() == a.len()
                &&& b[k].get("email"@) == Some(JsonV::Str(email@))
                &&& m != "email"@ ==> b[k].get(m) == a[k].get(m)
                &&& forall|j: int| 0 <= j < a.len() && j != k ==> #[trigger] b[j] == a[j]
                &&& forall|j: int| 0 <= j < s.len() && j != i ==> #[trigger] t[j] == s[j]
            },
        (forall|j: int| 0 <= j < a.len() ==> (#[trigger] a[j]).get("id"@) != Some(JsonV::Str(uuid@)))
            ==> r == Ok::<bool, AppError>(false) && final(config)@ == old(config)@,
{
    let raw = old(config)@;
    lemma_main_clients(raw, s, i, a);
    lemma_main_inbound(raw, s, i);
    types::lemma_first_id(a, uuid@, 0);
    if 0 <= k < a.len() && a[k].get("id"@) == Some(JsonV::Str(uuid@)) && (forall|j: int|
        0 <= j < k ==> (#[trigger] a[j]).get("id"@) != Some(JsonV::Str(uuid@))) {
        assert(types::has_id(a[k], uuid@));
        let f = types::first_id(a, uuid@, 0)->0;
        assert(types::has_id(a[f], uuid@));
        assert(a[f].get("id"@) == Some(JsonV::Str(uuid@)));
        assert(f == k);
        let b = a.update(k, a[k].put("email"@, JsonV::Str(email@)));
        let st = s[i].get("settings"@)->0;
        let ib = s[i].put("settings"@, st.put("clients"@, JsonV::Array(b)));
        let t = s.update(i, ib);
        reveal_strlit("protocol");
        reveal_strlit("settings");
        assert("protocol"@[0] == 'p' && "settings"@[0] == 's');
        assert(a[k] is Object);
        assert(final(config)@ == raw.put("inbounds"@, JsonV::Array(t)));
        assert(ib.get("protocol"@) == s[i].get("protocol"@));
        assert(forall|j: int|
            0 <= j < i ==> (#[trigger] t[j]).get("protocol"@) == s[j].get("protocol"@));
        assert(main_clients(final(config)@, t, i, b));
    }
    if forall|j: int| 0 <= j < a.len() ==> (#[trigger] a[j]).get("id"@) != Some(JsonV::Str(uuid@)) {
        if let Some(f) = types::first_id(a, uuid@, 0) {
            assert(types::has_id(a[f], uuid@));
            assert(a[f].get("id"@) != Some(JsonV::Str(uuid@)));
        }
    }
}

/// **The server name and the short id are the first of those that the inbound lists**, and its port is
/// its member of that name.
pub proof fn law_inbound_gives_its_settings(
    config: ServerConfig,
    s: Seq<JsonV>,
    i: int,
    stream: JsonV,
    reality: JsonV,
    names: Seq<JsonV>,
    ids: Seq<JsonV>,
    sni: Seq<char>,
    id: Seq<char>,
    r: Option<RealityParams>,
    port: Option<u16>,
)
    requires
        main_inbound(config@, s, i),
        call_ensures(ServerConfig::reality_settings, (&config,), r),
        call_ensures(ServerConfig::vless_port, (&config,), port),
    ensures
        s[i].get("streamSettings"@) == Some(stream) && stream.get("realitySettings"@) == Some(
            reality,
        ) && reality.get("serverNames"@) == Some(JsonV::Array(names)) && reality.get("shortIds"@)
            == Some(JsonV::Array(ids)) && names.len() > 0 && ids.len() > 0 && names[0] == JsonV::Str(
            sni,
        ) && ids[0] == JsonV::Str(id) ==> if sni.len() > 0 && id.len() > 0 {
            r matches Some(p) && p.sni@ == sni && p.short_id@ == id
        } else {
            r is None
        },
        s[i].get("streamSettings"@) is None ==> r is None,
        match s[i].get("port"@) {
            Some(JsonV::UInt(n)) => if n <= 65535 {
                port == Some(n as u16)
            } else {
                port is None
            },
            None => port is None,
            Some(JsonV::Str(_)) => port is None,
            _ => true,
        },
{
    lemma_main_inbound(config@, s, i);
}

} // verus!
