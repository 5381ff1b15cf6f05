//! The server's two documents, `server.json` and `clientsTable`, and the users they describe.

use crate::error;
use crate::error::AppError;
use crate::json;
use crate::json::codec;
use crate::json::record;
use crate::json::{Json, JsonV};
use crate::seqs;
use crate::seqs::retain;
use crate::text;
use crate::text::same;
use vstd::prelude::*;

verus! {

broadcast use {crate::json::lemma_array_view, crate::json::lemma_object_view};

// ---- users and clients ----

/// Traffic of a user in bytes.
#[derive(Debug, Clone, Copy, PartialEq, Eq, Structural)]
pub struct TrafficStats {
    pub uplink: u64,
    pub downlink: u64,
}

impl Default for TrafficStats {
    fn default() -> (r: TrafficStats)
        ensures
            r.uplink == 0 && r.downlink == 0,
    {
        TrafficStats { uplink: 0, downlink: 0 }
    }
}

/// A user: a client of `server.json` with its name from `clientsTable`.
#[derive(Debug, Clone, PartialEq)]
pub struct XrayUser {
    pub uuid: String,
    pub name: String,
    pub email: String,
    pub flow: String,
    pub stats: TrafficStats,
    pub online_count: u32,
}

pub struct UserV {
    pub uuid: Seq<char>,
    pub name: Seq<char>,
    pub email: Seq<char>,
    pub flow: Seq<char>,
    pub stats: TrafficStats,
    pub online_count: u32,
}

impl View for XrayUser {
    type V = UserV;

    open spec fn view(&self) -> UserV {
        UserV {
            uuid: self.uuid@,
            name: self.name@,
            email: self.email@,
            flow: self.flow@,
            stats: self.stats,
            online_count: self.online_count,
        }
    }
}

/// The email under which the server counts a user of that name.
pub open spec fn email_of(name: Seq<char>) -> Seq<char> {
    name + "@vpn"@
}

impl XrayUser {
    /// The email under which the server counts a user of that name.
    pub fn email_from_name(name: &str) -> (r: String)
        ensures
            r@ == email_of(name@),
    {
        let mut s = name.to_owned();
        s.append("@vpn");
        s
    }

    /// The same user again.
    pub fn duplicate(&self) -> (r: XrayUser)
        ensures
            r@ == self@,
    {
        XrayUser {
            uuid: self.uuid.clone(),
            name: self.name.clone(),
            email: self.email.clone(),
            flow: self.flow.clone(),
            stats: self.stats,
            online_count: self.online_count,
        }
    }
}

/// The data that `clientsTable` keeps beside a client's id.
#[derive(Debug, Clone, PartialEq, Eq)]
pub struct ClientUserData {
    pub client_name: String,
    pub creation_date: String,
}

/// An entry of `clientsTable`.
#[derive(Debug, Clone, PartialEq, Eq)]
pub struct ClientEntry {
    pub client_id: String,
    pub user_data: ClientUserData,
}

pub struct EntryV {
    pub id: Seq<char>,
    pub name: Seq<char>,
    pub date: Seq<char>,
}

impl View for ClientEntry {
    type V = EntryV;

    open spec fn view(&self) -> EntryV {
        EntryV {
            id: self.client_id@,
            name: self.user_data.client_name@,
            date: self.user_data.creation_date@,
        }
    }
}

/// A client in the VLESS inbound of `server.json`.
#[derive(Debug, Clone, PartialEq, Eq)]
pub struct ServerJsonClient {
    pub id: String,
    pub flow: String,
    pub email: Option<String>,
    pub level: Option<u32>,
}

pub struct ClientV {
    pub id: Seq<char>,
    pub flow: Seq<char>,
    pub email: Option<Seq<char>>,
    pub level: Option<u32>,
}

impl View for ServerJsonClient {
    type V = ClientV;

    open spec fn view(&self) -> ClientV {
        ClientV {
            id: self.id@,
            flow: self.flow@,
            email: text::opt_text(self.email),
            level: self.level,
        }
    }
}

/// The parameters of the Reality protocol.
#[derive(Debug, Clone, PartialEq, Eq)]
pub struct RealityParams {
    pub sni: String,
    pub short_id: String,
}

/// What a `vless://` URL is made of.
#[derive(Debug, Clone)]
pub struct VlessUrlParams {
    pub uuid: String,
    pub host: String,
    pub port: u16,
    pub sni: String,
    pub public_key: String,
    pub short_id: String,
    pub path: String,
}

// ---- server.json: what the document says ----

/// The value is an inbound of the protocol VLESS.
pub open spec fn is_vless(inbound: JsonV) -> bool {
    json::str_at(inbound, "protocol"@) == Some("vless"@)
}

/// The first VLESS inbound that is not before `i`.
pub open spec fn first_vless(s: Seq<JsonV>, i: int) -> Option<int>
    decreases s.len() - i,
{
    if i < 0 || i >= s.len() {
        None
    } else if is_vless(s[i]) {
        Some(i)
    } else {
        first_vless(s, i + 1)
    }
}

/// The inbounds of a server configuration.
pub open spec fn inbounds(raw: JsonV) -> Seq<JsonV> {
    match json::array_at(raw, "inbounds"@) {
        Some(a) => a,
        None => Seq::empty(),
    }
}

/// The main VLESS inbound.
pub open spec fn vless_inbound(raw: JsonV) -> Option<JsonV> {
    match first_vless(inbounds(raw), 0) {
        Some(i) => Some(inbounds(raw)[i]),
        None => None,
    }
}

/// The `settings.clients` of an inbound.
pub open spec fn inbound_clients(inbound: JsonV) -> Option<JsonV> {
    json::get2(inbound, "settings"@, "clients"@)
}

/// The clients of the main VLESS inbound, as they stand in the document.
pub open spec fn clients_array(raw: JsonV) -> Option<Seq<JsonV>> {
    match vless_inbound(raw) {
        Some(ib) => match inbound_clients(ib) {
            Some(c) => c.as_array(),
            None => None,
        },
        None => None,
    }
}

/// The document with another array in the place of the clients.
pub open spec fn with_clients(raw: JsonV, a: Seq<JsonV>) -> JsonV {
    let ibs = inbounds(raw);
    let i = first_vless(ibs, 0)->0;
    let settings = ibs[i].get("settings"@)->0;
    raw.put(
        "inbounds"@,
        JsonV::Array(
            ibs.update(i, ibs[i].put("settings"@, settings.put("clients"@, JsonV::Array(a)))),
        ),
    )
}

/// The client that a value stands for.
pub open spec fn client_of(j: JsonV) -> Option<ClientV> {
    if !record::is_record(j, 4) {
        None
    } else {
        match (
            record::required_text(record::field(j, "id"@, 0)),
            record::default_text(record::field(j, "flow"@, 1)),
            record::optional_text(record::field(j, "email"@, 2)),
            record::optional_u32(record::field(j, "level"@, 3)),
        ) {
            (Some(id), Some(flow), Some(email), Some(level)) => Some(
                ClientV { id, flow, email, level },
            ),
            _ => None,
        }
    }
}

/// Every value of the array stands for a client.
pub open spec fn all_clients(a: Seq<JsonV>) -> bool {
    forall|i: int| 0 <= i < a.len() ==> client_of(#[trigger] a[i]) is Some
}

/// The clients that an array lists; none where one of its values is no client.
pub open spec fn clients_in(a: Seq<JsonV>) -> Seq<ClientV> {
    if all_clients(a) {
        Seq::new(a.len(), |i: int| client_of(a[i])->0)
    } else {
        Seq::empty()
    }
}

/// The clients of the main VLESS inbound.
pub open spec fn clients_of(raw: JsonV) -> Seq<ClientV> {
    match clients_array(raw) {
        Some(a) => clients_in(a),
        None => Seq::empty(),
    }
}

/// A client as it stands in the document: what it has not is left out.
pub open spec fn client_json(c: ClientV) -> JsonV {
    let m = Map::empty().insert("id"@, JsonV::Str(c.id)).insert("flow"@, JsonV::Str(c.flow));
    let m = match c.email {
        Some(e) => m.insert("email"@, JsonV::Str(e)),
        None => m,
    };
    JsonV::Object(
        match c.level {
            Some(l) => m.insert("level"@, JsonV::UInt(l as u64)),
            None => m,
        },
    )
}

/// A client of that id, as it stands in the document.
pub open spec fn has_id(j: JsonV, id: Seq<char>) -> bool {
    json::str_at(j, "id"@) == Some(id)
}

/// The first value of that id that is not before `i`.
pub open spec fn first_id(a: Seq<JsonV>, id: Seq<char>, i: int) -> Option<int>
    decreases a.len() - i,
{
    if i < 0 || i >= a.len() {
        None
    } else if has_id(a[i], id) {
        Some(i)
    } else {
        first_id(a, id, i + 1)
    }
}

/// The values that are not of that id.
pub open spec fn not_id(id: Seq<char>) -> spec_fn(JsonV) -> bool {
    |j: JsonV| !has_id(j, id)
}

// ---- server.json: reading and editing ----

/// A parsed `server.json`. It is kept whole, so that fields the library does not know stay as they
/// are.
#[derive(Debug)]
pub struct ServerConfig {
    pub raw: Json,
}

impl View for ServerConfig {
    type V = JsonV;

    open spec fn view(&self) -> JsonV {
        self.raw@
    }
}

/// Setting a member to what it is changes nothing.
pub proof fn lemma_put_same(j: JsonV, k: Seq<char>)
    requires
        j.get(k) is Some,
    ensures
        j.put(k, j.get(k)->0) == j,
{
    if let JsonV::Object(m) = j {
        assert(m.insert(k, m[k]) =~= m);
    }
}

/// `first_vless` gives the least index of a VLESS inbound.
pub proof fn lemma_first_vless(s: Seq<JsonV>, i: int)
    requires
        0 <= i,
    ensures
        match first_vless(s, i) {
            Some(k) => i <= k < s.len() && is_vless(s[k]) && forall|j: int|
                i <= j < k ==> !is_vless(#[trigger] s[j]),
            None => forall|j: int| i <= j < s.len() ==> !is_vless(#[trigger] s[j]),
        },
    decreases s.len() - i,
{
    if i < s.len() && !is_vless(s[i]) {
        lemma_first_vless(s, i + 1);
    }
}

/// `first_id` gives the least index of a value of that id.
pub proof fn lemma_first_id(a: Seq<JsonV>, id: Seq<char>, i: int)
    requires
        0 <= i,
    ensures
        match first_id(a, id, i) {
            Some(k) => i <= k < a.len() && has_id(a[k], id) && forall|j: int|
                i <= j < k ==> !has_id(#[trigger] a[j], id),
            None => forall|j: int| i <= j < a.len() ==> !has_id(#[trigger] a[j], id),
        },
    decreases a.len() - i,
{
    if i < a.len() && !has_id(a[i], id) {
        lemma_first_id(a, id, i + 1);
    }
}

fn vless_index(inbounds: &Vec<Json>) -> (r: Option<usize>)
    ensures
        match r {
            Some(i) => first_vless(json::views(inbounds@), 0) == Some(i as int) && i
                < inbounds@.len(),
            None => first_vless(json::views(inbounds@), 0) is None,
        },
{
    let mut i: usize = 0;
    while i < inbounds.len()
        invariant
            i <= inbounds@.len(),
            first_vless(json::views(inbounds@), 0) == first_vless(json::views(inbounds@), i as int),
        decreases inbounds.len() - i,
    {
        match inbounds[i].str_at("protocol") {
            Some(p) => {
                if same(p, "vless") {
                    return Some(i);
                }
            },
            None => {},
        }
        i += 1;
    }
    None
}

/// The value has that id.
fn json_has_id(j: &Json, id: &str) -> (r: bool)
    ensures
        r == has_id(j@, id@),
{
    match j.str_at("id") {
        Some(s) => same(s, id),
        None => false,
    }
}

pub fn id_index(a: &Vec<Json>, id: &str) -> (r: Option<usize>)
    ensures
        match r {
            Some(i) => first_id(json::views(a@), id@, 0) == Some(i as int) && i < a@.len(),
            None => first_id(json::views(a@), id@, 0) is None,
        },
{
    let mut i: usize = 0;
    while i < a.len()
        invariant
            i <= a@.len(),
            first_id(json::views(a@), id@, 0) == first_id(json::views(a@), id@, i as int),
        decreases a.len() - i,
    {
        if json_has_id(&a[i], id) {
            return Some(i);
        }
        i += 1;
    }
    None
}

fn client_from(j: &Json) -> (r: Option<ServerJsonClient>)
    ensures
        match r {
            Some(c) => client_of(j@) == Some(c@),
            None => client_of(j@) is None,
        },
{
    if !j.is_record(4) {
        return None;
    }
    match (
        j.required_text("id", 0),
        j.default_text("flow", 1),
        j.optional_text("email", 2),
        j.optional_u32("level", 3),
    ) {
        (Some(id), Some(flow), Some(email), Some(level)) => {
            Some(ServerJsonClient { id, flow, email, level })
        },
        _ => None,
    }
}

/// Replacing an element replaces its meaning.
pub proof fn lemma_views_update(s: Seq<Json>, i: int)
    requires
        0 <= i < s.len(),
    ensures
        forall|j: Json| #[trigger]
            json::views(s.update(i, j)) == json::views(s).update(i, j@),
{
    assert forall|j: Json| #[trigger] json::views(s.update(i, j)) == json::views(s).update(
        i,
        j@,
    ) by {
        assert(json::views(s.update(i, j)) =~= json::views(s).update(i, j@));
    }
}

/// Replacing an element by itself changes nothing.
pub proof fn lemma_update_same(s: Seq<JsonV>, i: int)
    requires
        0 <= i < s.len(),
    ensures
        s.update(i, s[i]) == s,
{
    assert(s.update(i, s[i]) =~= s);
}

/// The clients array of an inbound, to be changed in place.
fn inbound_clients_mut(inbound: &mut Json) -> (r: Result<&mut Vec<Json>, AppError>)
    ensures
        match r {
            Ok(a) => {
                let settings = old(inbound)@.get("settings"@)->0;
                &&& inbound_clients(old(inbound)@) == Some(JsonV::Array(json::views((*a)@)))
                &&& final(inbound)@ == old(inbound)@.put(
                    "settings"@,
                    settings.put("clients"@, JsonV::Array(json::views((*final(a))@))),
                )
            },
            Err(e) => {
                &&& final(inbound)@ == old(inbound)@
                &&& match inbound_clients(old(inbound)@) {
                    Some(c) => c.as_array() is None,
                    None => true,
                }
                &&& error::is_xray(e, "no clients array found"@)
            },
        },
{
    let ghost before = inbound@;
    match inbound.get_mut("settings") {
        None => Err(AppError::Xray("no clients array found".to_owned())),
        Some(s) => {
            proof {
                lemma_put_same(before, "settings"@);
            }
            match s.get_mut("clients") {
                None => Err(AppError::Xray("no clients array found".to_owned())),
                Some(c) => {
                    proof {
                        lemma_put_same(before.get("settings"@)->0, "clients"@);
                    }
                    match c.as_array_mut() {
                        None => Err(AppError::Xray("no clients array found".to_owned())),
                        Some(a) => Ok(a),
                    }
                },
            }
        },
    }
}

/// The meanings of the clients in a list.
pub open spec fn client_views(s: Seq<ServerJsonClient>) -> Seq<ClientV> {
    Seq::new(s.len(), |i: int| s[i]@)
}

fn clients_from(a: &Vec<Json>) -> (r: Vec<ServerJsonClient>)
    ensures
        client_views(r@) == clients_in(json::views(a@)),
{
    let mut out: Vec<ServerJsonClient> = Vec::new();
    let mut i: usize = 0;
    while i < a.len()
        invariant
            i <= a@.len(),
            out@.len() == i,
            forall|k: int|
                0 <= k < i ==> client_of(#[trigger] json::views(a@)[k]) == Some(out@[k]@),
        decreases a.len() - i,
    {
        match client_from(&a[i]) {
            Some(c) => {
                out.push(c);
            },
            None => {
                assert(client_of(json::views(a@)[i as int]) is None);
                let none: Vec<ServerJsonClient> = Vec::new();
                assert(client_views(none@) =~= Seq::empty());
                return none;
            },
        }
        i += 1;
    }
    assert(client_views(out@) =~= clients_in(json::views(a@)));
    out
}

fn json_of_client(c: &ServerJsonClient) -> (r: Json)
    ensures
        r@ == client_json(c@),
{
    let mut j = Json::Object(Vec::new());
    j.put("id", Json::text(&c.id));
    j.put("flow", Json::text(&c.flow));
    match &c.email {
        Some(e) => {
            j.put("email", Json::text(e));
        },
        None => {},
    }
    match c.level {
        Some(l) => {
            j.put("level", Json::UInt(l as u64));
        },
        None => {},
    }
    j
}

impl ServerConfig {
    /// Reads `server.json`.
    pub fn parse(json: &str) -> (r: Result<ServerConfig, AppError>)
        ensures
            match r {
                Ok(c) => codec::reads_as(json@, c@),
                Err(e) => codec::json_of_text(json@) matches Err(m) && error::is_json(e, m),
            },
    {
        match Json::parse(json) {
            Ok(raw) => Ok(ServerConfig { raw }),
            Err(m) => Err(AppError::Json(m)),
        }
    }

    /// Writes `server.json`.
    pub fn to_json(&self) -> (r: String)
        ensures
            r@ == codec::pretty_text(self@),
            codec::readable(self@, codec::depth_limit()) ==> codec::reads_as(r@, self@),
    {
        self.raw.to_pretty()
    }

    /// The main VLESS inbound.
    pub fn find_vless_inbound(&self) -> (r: Option<&Json>)
        ensures
            match r {
                Some(j) => vless_inbound(self@) == Some(j@),
                None => vless_inbound(self@) is None,
            },
    {
        match self.raw.array_at("inbounds") {
            Some(a) => match vless_index(a) {
                Some(i) => Some(&a[i]),
                None => None,
            },
            None => None,
        }
    }

    /// The clients of the main VLESS inbound; none where the list is missing or not one of clients.
    pub fn clients(&self) -> (r: Vec<ServerJsonClient>)
        ensures
            client_views(r@) == clients_of(self@),
    {
        match self.find_vless_inbound() {
            Some(ib) => match ib.get("settings") {
                Some(s) => match s.get("clients") {
                    Some(c) => match c.as_array() {
                        Some(a) => {
                            return clients_from(a);
                        },
                        None => {},
                    },
                    None => {},
                },
                None => {},
            },
            None => {},
        }
        let none: Vec<ServerJsonClient> = Vec::new();
        assert(client_views(none@) =~= Seq::empty());
        none
    }

    /// Whether a client of the main VLESS inbound has that email.
    pub fn has_client_email(&self, email: &str) -> (r: bool)
        ensures
            r == exists|i: int|
                0 <= i < clients_of(self@).len() && (#[trigger] clients_of(self@)[i]).email == Some(
                    email@,
                ),
    {
        let cs = self.clients();
        let mut i: usize = 0;
        while i < cs.len()
            invariant
                i <= cs@.len(),
                client_views(cs@) == clients_of(self@),
                forall|k: int|
                    0 <= k < i ==> (#[trigger] clients_of(self@)[k]).email != Some(email@),
            decreases cs.len() - i,
        {
            assert(clients_of(self@)[i as int] == cs@[i as int]@);
            match &cs[i].email {
                Some(e) => {
                    if same(e, email) {
                        return true;
                    }
                },
                None => {},
            }
            i += 1;
        }
        false
    }

    /// The array of clients, to be changed in place.
    fn clients_mut(&mut self) -> (r: Result<&mut Vec<Json>, AppError>)
        ensures
            match r {
                Ok(a) => {
                    &&& clients_array(old(self)@) == Some(json::views((*a)@))
                    &&& final(self)@ == with_clients(old(self)@, json::views((*final(a))@))
                },
                Err(e) => {
                    &&& final(self)@ == old(self)@
                    &&& clients_array(old(self)@) is None
                    &&& error::is_xray(
                        e,
                        if vless_inbound(old(self)@) is None {
                            "no VLESS inbound found"@
                        } else {
                            "no clients array found"@
                        },
                    )
                },
            },
    {
        let ghost raw = self@;
        let ghost ibs = inbounds(raw);
        match self.raw.get_mut("inbounds") {
            None => Err(AppError::Xray("no VLESS inbound found".to_owned())),
            Some(x) => {
                proof {
                    lemma_put_same(raw, "inbounds"@);
                }
                match x.as_array_mut() {
                    None => Err(AppError::Xray("no VLESS inbound found".to_owned())),
                    Some(a) => match vless_index(a) {
                        None => Err(AppError::Xray("no VLESS inbound found".to_owned())),
                        Some(i) => {
                            proof {
                                lemma_views_update(a@, i as int);
                                lemma_update_same(ibs, i as int);
                            }
                            inbound_clients_mut(&mut a[i])
                        },
                    },
                }
            },
        }
    }
}

/// Putting the clients back leaves the document as it is.
pub proof fn lemma_with_same(raw: JsonV)
    requires
        clients_array(raw) is Some,
    ensures
        with_clients(raw, clients_array(raw)->0) == raw,
{
    let ibs = inbounds(raw);
    lemma_first_vless(ibs, 0);
    let i = first_vless(ibs, 0)->0;
    let settings = ibs[i].get("settings"@)->0;
    lemma_put_same(settings, "clients"@);
    lemma_put_same(ibs[i], "settings"@);
    lemma_update_same(ibs, i);
    lemma_put_same(raw, "inbounds"@);
}

/// Filtering the values of a list by what they mean.
pub proof fn lemma_views_filter(s: Seq<Json>, p: spec_fn(Json) -> bool, q: spec_fn(JsonV) -> bool)
    requires
        forall|j: Json| #[trigger] p(j) == q(j@),
    ensures
        json::views(s.filter(p)) == json::views(s).filter(q),
{
    let f = |j: Json| j@;
    seqs::lemma_filter_map(s, f, p, q);
    assert(json::views(s) =~= s.map_values(f));
    assert(json::views(s.filter(p)) =~= s.filter(p).map_values(f));
}

/// The message of a document whose clients cannot be changed.
pub open spec fn no_clients(raw: JsonV) -> Seq<char> {
    if vless_inbound(raw) is None {
        "no VLESS inbound found"@
    } else {
        "no clients array found"@
    }
}

impl ServerConfig {
    /// Adds a client to the main VLESS inbound.
    pub fn add_client(&mut self, client: &ServerJsonClient) -> (r: Result<(), AppError>)
        ensures
            match clients_array(old(self)@) {
                Some(a) => r is Ok && final(self)@ == with_clients(
                    old(self)@,
                    a.push(client_json(client@)),
                ),
                None => final(self)@ == old(self)@ && r is Err && error::is_xray(
                    r->Err_0,
                    no_clients(old(self)@),
                ),
            },
    {
        let j = json_of_client(client);
        match self.clients_mut() {
            Ok(a) => {
                let ghost before = a@;
                a.push(j);
                assert(json::views(a@) =~= json::views(before).push(j@));
                Ok(())
            },
            Err(e) => Err(e),
        }
    }

    /// Sets the email of the first client of that id. Tells whether there is one.
    pub fn update_client_email(&mut self, uuid: &str, new_email: &str) -> (r: Result<bool, AppError>)
        ensures
            match clients_array(old(self)@) {
                Some(a) => match first_id(a, uuid@, 0) {
                    Some(i) => r == Ok::<bool, AppError>(true) && final(self)@ == with_clients(
                        old(self)@,
                        a.update(i, a[i].put("email"@, JsonV::Str(new_email@))),
                    ),
                    None => r == Ok::<bool, AppError>(false) && final(self)@ == old(self)@,
                },
                None => final(self)@ == old(self)@ && r is Err && error::is_xray(
                    r->Err_0,
                    no_clients(old(self)@),
                ),
            },
    {
        let ghost raw = self@;
        match self.clients_mut() {
            Ok(a) => {
                proof {
                    lemma_with_same(raw);
                }
                match id_index(a, uuid) {
                    Some(i) => {
                        proof {
                            lemma_views_update(a@, i as int);
                        }
                        a[i].put("email", Json::text(new_email));
                        Ok(true)
                    },
                    None => Ok(false),
                }
            },
            Err(e) => Err(e),
        }
    }

    /// Removes the clients of that id. Tells whether there was one.
    pub fn remove_client(&mut self, uuid: &str) -> (r: Result<bool, AppError>)
        ensures
            match clients_array(old(self)@) {
                Some(a) => {
                    &&& r == Ok::<bool, AppError>(first_id(a, uuid@, 0) is Some)
                    &&& final(self)@ == with_clients(old(self)@, a.filter(not_id(uuid@)))
                },
                None => final(self)@ == old(self)@ && r is Err && error::is_xray(
                    r->Err_0,
                    no_clients(old(self)@),
                ),
            },
    {
        match self.clients_mut() {
            Ok(a) => {
                let before: usize = a.len();
                let ghost s = a@;
                let ghost p = |j: Json| !has_id(j@, uuid@);
                let keep = |j: &Json| -> (b: bool)
                    ensures
                        b == !has_id(j@, uuid@),
                    { !json_has_id(j, uuid) };
                retain(a, keep, Ghost(p));
                proof {
                    lemma_views_filter(s, p, not_id(uuid@));
                    lemma_first_id(json::views(s), uuid@, 0);
                    seqs::lemma_filter_all(json::views(s), not_id(uuid@));
                }
                Ok(a.len() < before)
            },
            Err(e) => Err(e),
        }
    }
}

} // verus!
