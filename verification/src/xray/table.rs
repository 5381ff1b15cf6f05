//! `clientsTable`, which gives the clients their names, and the users that result.

use crate::error;
use crate::error::AppError;
use crate::json;
use crate::json::codec;
use crate::json::record;
use crate::json::{Json, JsonV};
use crate::seqs;
use crate::seqs::retain;
use crate::text::same;
use crate::xray::types;
use crate::xray::types::{
    ClientEntry, ClientUserData, ClientV, EntryV, ServerConfig, ServerJsonClient, TrafficStats,
    UserV, XrayUser,
};
use vstd::prelude::*;

verus! {

broadcast use {crate::json::lemma_array_view, crate::json::lemma_object_view};

/// The table of the clients' names, in the order of the file.
#[derive(Debug, Clone)]
pub struct ClientsTable {
    pub entries: Vec<ClientEntry>,
}

/// The meanings of the entries in a list.
pub open spec fn entry_views(s: Seq<ClientEntry>) -> Seq<EntryV> {
    Seq::new(s.len(), |i: int| s[i]@)
}

impl View for ClientsTable {
    type V = Seq<EntryV>;

    open spec fn view(&self) -> Seq<EntryV> {
        entry_views(self.entries@)
    }
}

// ---- the file ----

/// The entry that a value stands for.
pub open spec fn entry_of(j: JsonV) -> Option<EntryV> {
    if !record::is_record(j, 2) {
        None
    } else {
        match (
            record::required_text(record::field(j, "clientId"@, 0)),
            record::field(j, "userData"@, 1),
        ) {
            (Some(id), Some(data)) => if !record::is_record(data, 2) {
                None
            } else {
                match (
                    record::default_text(record::field(data, "clientName"@, 0)),
                    record::default_text(record::field(data, "creationDate"@, 1)),
                ) {
                    (Some(name), Some(date)) => Some(EntryV { id, name, date }),
                    _ => None,
                }
            },
            _ => None,
        }
    }
}

/// The table that a document stands for.
pub open spec fn table_of(j: JsonV) -> Option<Seq<EntryV>> {
    match j {
        JsonV::Array(a) => if forall|i: int|
            0 <= i < a.len() ==> entry_of(#[trigger] a[i]) is Some {
            Some(Seq::new(a.len(), |i: int| entry_of(a[i])->0))
        } else {
            None
        },
        _ => None,
    }
}

/// An entry as it stands in the file.
pub open spec fn entry_json(e: EntryV) -> JsonV {
    JsonV::Object(
        Map::empty().insert("clientId"@, JsonV::Str(e.id)).insert(
            "userData"@,
            JsonV::Object(
                Map::empty().insert("clientName"@, JsonV::Str(e.name)).insert(
                    "creationDate"@,
                    JsonV::Str(e.date),
                ),
            ),
        ),
    )
}

/// The table as it stands in the file.
pub open spec fn table_json(t: Seq<EntryV>) -> JsonV {
    JsonV::Array(Seq::new(t.len(), |i: int| entry_json(t[i])))
}

fn entry_from(j: &Json) -> (r: Option<ClientEntry>)
    ensures
        match r {
            Some(e) => entry_of(j@) == Some(e@),
            None => entry_of(j@) is None,
        },
{
    if !j.is_record(2) {
        return None;
    }
    match (j.required_text("clientId", 0), j.field("userData", 1)) {
        (Some(client_id), Some(data)) => {
            if !data.is_record(2) {
                return None;
            }
            match (data.default_text("clientName", 0), data.default_text("creationDate", 1)) {
                (Some(client_name), Some(creation_date)) => Some(
                    ClientEntry {
                        client_id,
                        user_data: ClientUserData { client_name, creation_date },
                    },
                ),
                _ => None,
            }
        },
        _ => None,
    }
}

fn json_of_entry(e: &ClientEntry) -> (r: Json)
    ensures
        r@ == entry_json(e@),
{
    let mut data = Json::Object(Vec::new());
    data.put("clientName", Json::text(&e.user_data.client_name));
    data.put("creationDate", Json::text(&e.user_data.creation_date));
    let mut j = Json::Object(Vec::new());
    j.put("clientId", Json::text(&e.client_id));
    j.put("userData", data);
    j
}

/// What is said of a document that is no table.
pub open spec fn not_a_table() -> Seq<char> {
    "not a table of clients"@
}

impl ClientsTable {
    /// The table that a parsed document stands for.
    pub fn from_json(j: &Json) -> (r: Result<ClientsTable, AppError>)
        ensures
            match r {
                Ok(t) => table_of(j@) == Some(t@),
                Err(e) => table_of(j@) is None && error::is_json(e, not_a_table()),
            },
    {
        match j.as_array() {
            Some(a) => {
                let mut entries: Vec<ClientEntry> = Vec::new();
                let mut i: usize = 0;
                while i < a.len()
                    invariant
                        i <= a@.len(),
                        j@ == JsonV::Array(json::views(a@)),
                        entries@.len() == i,
                        forall|k: int|
                            0 <= k < i ==> entry_of(#[trigger] json::views(a@)[k]) == Some(
                                entries@[k]@,
                            ),
                    decreases a.len() - i,
                {
                    match entry_from(&a[i]) {
                        Some(e) => {
                            entries.push(e);
                        },
                        None => {
                            assert(entry_of(json::views(a@)[i as int]) is None);
                            return Err(AppError::Json("not a table of clients".to_owned()));
                        },
                    }
                    i += 1;
                }
                let t = ClientsTable { entries };
                assert(t@ =~= table_of(j@)->0);
                Ok(t)
            },
            None => Err(AppError::Json("not a table of clients".to_owned())),
        }
    }

    /// Reads `clientsTable`.
    ///
    /// The whole text is read as JSON before its members are. So of a repeated member the last one
    /// counts, and a member that is not read still has to be one that `serde_json` can hold: with a
    /// number out of range or nested too deep it makes the text unreadable.
    /// The message for JSON of another shape is this function's own.
    pub fn parse(json: &str) -> (r: Result<ClientsTable, AppError>)
        ensures
            match codec::json_of_text(json@) {
                Ok(j) => match r {
                    Ok(t) => table_of(j) == Some(t@),
                    Err(e) => table_of(j) is None && error::is_json(e, not_a_table()),
                },
                Err(m) => r is Err && error::is_json(r->Err_0, m),
            },
    {
        match Json::parse(json) {
            Ok(j) => ClientsTable::from_json(&j),
            Err(m) => Err(AppError::Json(m)),
        }
    }

    /// The table as a document.
    pub fn as_json(&self) -> (r: Json)
        ensures
            r@ == table_json(self@),
    {
        let mut a: Vec<Json> = Vec::new();
        let mut i: usize = 0;
        while i < self.entries.len()
            invariant
                i <= self.entries@.len(),
                a@.len() == i,
                forall|k: int| 0 <= k < i ==> (#[trigger] a@[k])@ == entry_json(self@[k]),
            decreases self.entries.len() - i,
        {
            a.push(json_of_entry(&self.entries[i]));
            i += 1;
        }
        assert(json::views(a@) =~= table_json(self@)->Array_0);
        Json::Array(a)
    }

    /// Writes `clientsTable`; the text is read back as this table.
    pub fn to_json(&self) -> (r: String)
        ensures
            r@ == codec::pretty_text(table_json(self@)),
            codec::reads_as(r@, table_json(self@)),
            table_of(table_json(self@)) == Some(self@),
    {
        proof {
            law_table_reads_back(self@);
        }
        self.as_json().to_pretty()
    }
}

/// An entry is read back from its JSON, which is nested two deep.
proof fn lemma_entry_reads_back(e: EntryV)
    ensures
        entry_of(entry_json(e)) == Some(e),
        codec::readable(entry_json(e), 2),
{
    reveal_strlit("clientId");
    reveal_strlit("userData");
    reveal_strlit("clientName");
    reveal_strlit("creationDate");
    assert("clientId"@.len() != "userData"@.len() || "clientId"@[0] != "userData"@[0]);
    assert("clientName"@.len() != "creationDate"@.len());
    let data = entry_json(e)->Object_0["userData"@];
    reveal_with_fuel(codec::readable, 3);
    assert(data.get("clientName"@) == Some(JsonV::Str(e.name)));
    assert(data.get("creationDate"@) == Some(JsonV::Str(e.date)));
    assert(codec::readable(data, 1));
}

/// Any table is read back from its JSON, and no table is nested too deep to be read.
pub proof fn law_table_reads_back(t: Seq<EntryV>)
    ensures
        table_of(table_json(t)) == Some(t),
        codec::readable(table_json(t), codec::depth_limit()),
{
    let a = table_json(t)->Array_0;
    assert forall|i: int| 0 <= i < a.len() implies entry_of(#[trigger] a[i]) == Some(t[i])
        && codec::readable(a[i], (codec::depth_limit() - 1) as nat) by {
        lemma_entry_reads_back(t[i]);
        codec::lemma_readable_deeper(a[i], 2, (codec::depth_limit() - 1) as nat);
    }
    assert(table_of(table_json(t))->0 =~= t);
}

// ---- lookup and change ----

/// The first entry of that id that is not before `i`.
pub open spec fn entry_index(t: Seq<EntryV>, id: Seq<char>, i: int) -> Option<int>
    decreases t.len() - i,
{
    if i < 0 || i >= t.len() {
        None
    } else if t[i].id == id {
        Some(i)
    } else {
        entry_index(t, id, i + 1)
    }
}

/// The first entry of that name that is not before `i`.
pub open spec fn name_index(t: Seq<EntryV>, name: Seq<char>, i: int) -> Option<int>
    decreases t.len() - i,
{
    if i < 0 || i >= t.len() {
        None
    } else if t[i].name == name {
        Some(i)
    } else {
        name_index(t, name, i + 1)
    }
}

/// `entry_index` gives the least index of an entry of that id.
pub proof fn lemma_entry_index(t: Seq<EntryV>, id: Seq<char>, i: int)
    requires
        0 <= i,
    ensures
        match entry_index(t, id, i) {
            Some(k) => i <= k < t.len() && t[k].id == id && forall|j: int|
                i <= j < k ==> (#[trigger] t[j]).id != id,
            None => forall|j: int| i <= j < t.len() ==> (#[trigger] t[j]).id != id,
        },
    decreases t.len() - i,
{
    if i < t.len() && t[i].id != id {
        lemma_entry_index(t, id, i + 1);
    }
}

/// `name_index` gives the least index of an entry of that name.
pub proof fn lemma_name_index(t: Seq<EntryV>, name: Seq<char>, i: int)
    requires
        0 <= i,
    ensures
        match name_index(t, name, i) {
            Some(k) => i <= k < t.len() && t[k].name == name && forall|j: int|
                i <= j < k ==> (#[trigger] t[j]).name != name,
            None => forall|j: int| i <= j < t.len() ==> (#[trigger] t[j]).name != name,
        },
    decreases t.len() - i,
{
    if i < t.len() && t[i].name != name {
        lemma_name_index(t, name, i + 1);
    }
}

/// The name of the first entry of that id.
pub open spec fn name_of(t: Seq<EntryV>, id: Seq<char>) -> Option<Seq<char>> {
    match entry_index(t, id, 0) {
        Some(i) => Some(t[i].name),
        None => None,
    }
}

/// The entry with another name.
pub open spec fn renamed(e: EntryV, name: Seq<char>) -> EntryV {
    EntryV { id: e.id, name, date: e.date }
}

/// The entries that are not of that id.
pub open spec fn other_than(id: Seq<char>) -> spec_fn(EntryV) -> bool {
    |e: EntryV| e.id != id
}

impl ClientsTable {
    fn index_of(&self, id: &str) -> (r: Option<usize>)
        ensures
            match r {
                Some(i) => entry_index(self@, id@, 0) == Some(i as int) && i < self.entries@.len(),
                None => entry_index(self@, id@, 0) is None,
            },
    {
        let mut i: usize = 0;
        while i < self.entries.len()
            invariant
                i <= self.entries@.len(),
                entry_index(self@, id@, 0) == entry_index(self@, id@, i as int),
            decreases self.entries.len() - i,
        {
            if same(&self.entries[i].client_id, id) {
                return Some(i);
            }
            i += 1;
        }
        None
    }

    /// The id of the first entry of that name.
    pub fn uuid_for_name(&self, name: &str) -> (r: Option<&str>)
        ensures
            match r {
                Some(id) => name_index(self@, name@, 0) matches Some(i) && self@[i].id == id@,
                None => name_index(self@, name@, 0) is None,
            },
    {
        let mut i: usize = 0;
        while i < self.entries.len()
            invariant
                i <= self.entries@.len(),
                name_index(self@, name@, 0) == name_index(self@, name@, i as int),
            decreases self.entries.len() - i,
        {
            if same(&self.entries[i].user_data.client_name, name) {
                return Some(self.entries[i].client_id.as_str());
            }
            i += 1;
        }
        None
    }

    /// Whether an entry has that name.
    pub fn has_name(&self, name: &str) -> (r: bool)
        ensures
            r == exists|i: int| 0 <= i < self@.len() && (#[trigger] self@[i]).name == name@,
            r == (name_index(self@, name@, 0) is Some),
    {
        proof {
            lemma_name_index(self@, name@, 0);
        }
        self.uuid_for_name(name).is_some()
    }

    /// The name of the first entry of that id.
    pub fn name_for_uuid(&self, uuid: &str) -> (r: Option<&str>)
        ensures
            match r {
                Some(n) => name_of(self@, uuid@) == Some(n@),
                None => name_of(self@, uuid@) is None,
            },
    {
        match self.index_of(uuid) {
            Some(i) => Some(self.entries[i].user_data.client_name.as_str()),
            None => None,
        }
    }

    /// Adds an entry at the end.
    pub fn add(&mut self, client_id: String, name: String)
        ensures
            final(self)@ == old(self)@.push(
                (EntryV { id: client_id@, name: name@, date: Seq::empty() }),
            ),
    {
        let ghost before = self@;
        self.entries.push(
            ClientEntry {
                client_id,
                user_data: ClientUserData { client_name: name, creation_date: String::new() },
            },
        );
        assert(self@ =~= before.push(EntryV { id: client_id@, name: name@, date: Seq::empty() }));
    }

    /// Gives the first entry of that id another name. Tells whether there is one.
    pub fn rename(&mut self, uuid: &str, new_name: &str) -> (r: bool)
        ensures
            match entry_index(old(self)@, uuid@, 0) {
                Some(i) => r && final(self)@ == old(self)@.update(
                    i,
                    renamed(old(self)@[i], new_name@),
                ),
                None => !r && final(self)@ == old(self)@,
            },
    {
        let ghost before = self@;
        match self.index_of(uuid) {
            Some(i) => {
                self.entries[i].user_data.client_name = new_name.to_owned();
                assert(self@ =~= before.update(i as int, renamed(before[i as int], new_name@)));
                true
            },
            None => false,
        }
    }

    /// Removes the entries of that id. Tells whether there was one.
    pub fn remove(&mut self, uuid: &str) -> (r: bool)
        ensures
            r == (entry_index(old(self)@, uuid@, 0) is Some),
            final(self)@ == old(self)@.filter(other_than(uuid@)),
    {
        let ghost s = self.entries@;
        let ghost t = self@;
        let before: usize = self.entries.len();
        let ghost p = |e: ClientEntry| e@.id != uuid@;
        let keep = |e: &ClientEntry| -> (b: bool)
            ensures
                b == (e@.id != uuid@),
            { !same(&e.client_id, uuid) };
        retain(&mut self.entries, keep, Ghost(p));
        proof {
            let f = |e: ClientEntry| e@;
            seqs::lemma_filter_map(s, f, p, other_than(uuid@));
            assert(t =~= s.map_values(f));
            assert(self@ =~= s.filter(p).map_values(f));
            lemma_entry_index(t, uuid@, 0);
            seqs::lemma_filter_all(t, other_than(uuid@));
        }
        self.entries.len() < before
    }
}

// ---- users ----

/// The user that a client and the table give: a client without an entry is called unknown, and one
/// without an email has the one of its name.
pub open spec fn user_of(c: ClientV, t: Seq<EntryV>) -> UserV {
    let name = match name_of(t, c.id) {
        Some(n) => n,
        None => "unknown"@,
    };
    UserV {
        uuid: c.id,
        name,
        email: match c.email {
            Some(e) => e,
            None => types::email_of(name),
        },
        flow: c.flow,
        stats: TrafficStats { uplink: 0, downlink: 0 },
        online_count: 0,
    }
}

/// The users of a server: one for each client, in order.
pub open spec fn users_of(raw: JsonV, t: Seq<EntryV>) -> Seq<UserV> {
    let cs = types::clients_of(raw);
    Seq::new(cs.len(), |i: int| user_of(cs[i], t))
}

/// The meanings of the users in a list.
pub open spec fn user_views(s: Seq<XrayUser>) -> Seq<UserV> {
    Seq::new(s.len(), |i: int| s[i]@)
}

fn user_from(c: &ServerJsonClient, table: &ClientsTable) -> (r: XrayUser)
    ensures
        r@ == user_of(c@, table@),
{
    let name: String = match table.name_for_uuid(&c.id) {
        Some(n) => n.to_owned(),
        None => "unknown".to_owned(),
    };
    let email: String = match &c.email {
        Some(e) => e.clone(),
        None => XrayUser::email_from_name(&name),
    };
    XrayUser {
        uuid: c.id.clone(),
        name,
        email,
        flow: c.flow.clone(),
        stats: TrafficStats { uplink: 0, downlink: 0 },
        online_count: 0,
    }
}

/// The users of a server, from its clients and their names.
pub fn merge_users(config: &ServerConfig, table: &ClientsTable) -> (r: Vec<XrayUser>)
    ensures
        user_views(r@) == users_of(config@, table@),
{
    let cs = config.clients();
    let mut out: Vec<XrayUser> = Vec::new();
    let mut i: usize = 0;
    while i < cs.len()
        invariant
            i <= cs@.len(),
            out@.len() == i,
            forall|k: int| 0 <= k < i ==> (#[trigger] out@[k])@ == user_of(cs@[k]@, table@),
        decreases cs.len() - i,
    {
        out.push(user_from(&cs[i], table));
        i += 1;
    }
    proof {
        assert forall|k: int| 0 <= k < cs@.len() implies #[trigger] types::clients_of(config@)[k]
            == cs@[k]@ by {
            assert(types::client_views(cs@)[k] == cs@[k]@);
        }
        assert(types::client_views(cs@).len() == cs@.len());
        assert(user_views(out@) =~= users_of(config@, table@));
    }
    out
}

// ---- laws ----

/// **A name that is added is the last entry**, and the others are what they were.
pub proof fn law_added_entry_is_the_last(t: &mut ClientsTable, id: String, name: String, k: int)
    requires
        call_ensures(ClientsTable::add, (t, id, name), ()),
    ensures
        final(t)@.len() == old(t)@.len() + 1,
        final(t)@[old(t)@.len() as int].id == id@,
        final(t)@[old(t)@.len() as int].name == name@,
        final(t)@[old(t)@.len() as int].date.len() == 0,
        0 <= k < old(t)@.len() ==> final(t)@[k] == old(t)@[k],
{
}

/// **Only the name of the user with the id changes.** It is told whether there is one.
pub proof fn law_renaming_changes_one_name(t: &mut ClientsTable, id: &str, name: &str, k: int, r: bool)
    requires
        call_ensures(ClientsTable::rename, (t, id, name), r),
    ensures
        final(t)@.len() == old(t)@.len(),
        r == exists|i: int| 0 <= i < old(t)@.len() && (#[trigger] old(t)@[i]).id == id@,
        0 <= k < old(t)@.len() && old(t)@[k].id != id@ ==> final(t)@[k] == old(t)@[k],
        0 <= k < old(t)@.len() && old(t)@[k].id == id@ && (forall|j: int|
            0 <= j < k ==> (#[trigger] old(t)@[j]).id != id@) ==> final(t)@[k].name == name@
            && final(t)@[k].id == id@ && final(t)@[k].date == old(t)@[k].date,
{
    lemma_entry_index(old(t)@, id@, 0);
    if let Some(i) = entry_index(old(t)@, id@, 0) {
        assert(old(t)@[i].id == id@);
    }
}

/// **Removing an id takes its entries and no other.** With one entry more, the same is left, and that
/// entry, unless it has the id.
pub proof fn law_removal_takes_the_id(
    a: &mut ClientsTable,
    b: &mut ClientsTable,
    id: &str,
    e: EntryV,
    r: bool,
    s: bool,
)
    requires
        call_ensures(ClientsTable::remove, (a, id), r),
        call_ensures(ClientsTable::remove, (b, id), s),
        old(b)@ == old(a)@.push(e),
    ensures
        old(a)@.len() == 0 ==> final(a)@.len() == 0 && !r,
        e.id == id@ ==> final(b)@ == final(a)@ && s,
        e.id != id@ ==> final(b)@ == final(a)@.push(e) && s == r,
{
    seqs::lemma_filter_push(old(a)@, e, other_than(id@));
    lemma_entry_index(old(a)@, id@, 0);
    lemma_entry_index(old(b)@, id@, 0);
    reveal(Seq::filter);
    if e.id == id@ {
        assert(old(b)@[old(a)@.len() as int].id == id@);
    } else {
        if let Some(i) = entry_index(old(a)@, id@, 0) {
            assert(old(b)@[i].id == id@);
        }
        if let Some(i) = entry_index(old(b)@, id@, 0) {
            assert(old(a)@[i] == old(b)@[i]);
        }
    }
}

/// **A table is written entry by entry**: each with its id, its name and its date.
pub proof fn law_table_is_written_entry_by_entry(t: ClientsTable, k: int, r: Json)
    requires
        call_ensures(ClientsTable::as_json, (&t,), r),
        0 <= k < t@.len(),
    ensures
        r@ matches JsonV::Array(a) && a.len() == t@.len() && a[k].get("clientId"@) == Some(
            JsonV::Str(t@[k].id),
        ) && (a[k].get("userData"@) matches Some(d) && d.get("clientName"@) == Some(
            JsonV::Str(t@[k].name),
        ) && d.get("creationDate"@) == Some(JsonV::Str(t@[k].date))),
{
    reveal_strlit("clientId");
    reveal_strlit("userData");
    reveal_strlit("clientName");
    reveal_strlit("creationDate");
    assert("clientId"@[0] != "userData"@[0]);
    assert("clientName"@.len() != "creationDate"@.len());
    let a = r@->Array_0;
    assert(a[k] == entry_json(t@[k]));
}

/// **A document that is no list of entries is refused.**
pub proof fn law_other_documents_are_no_table(j: Json, r: Result<ClientsTable, AppError>, k: int)
    requires
        call_ensures(ClientsTable::from_json, (&j,), r),
        j@ is Object || j@ is Str || (j@ matches JsonV::Array(a) && 0 <= k < a.len() && (a[k] is Str
            || (a[k] is Object && a[k].get("clientId"@) is None))),
    ensures
        r matches Err(AppError::Json(m)) && m@ == "not a table of clients"@,
{
    if let JsonV::Array(a) = j@ {
        assert(entry_of(a[k]) is None);
    }
}

} // verus!
