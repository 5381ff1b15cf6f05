//! The client of the bridge agent: what it asks for, and what it makes of the answers.

use crate::decimal;
use crate::decimal::{parse_max, push_u64};
use crate::json;
use crate::json::codec;
use crate::json::record;
use crate::json::{Json, JsonV};
use crate::text;
use crate::text::{chars_of, contains, same, split_on, string_of};
use crate::xray::answers;
use vstd::prelude::*;

verus! {

broadcast use {crate::json::lemma_array_view, crate::json::lemma_object_view};

// ---- metrics of the host ----

/// The metrics of the bridge's host.
#[derive(Debug, Clone)]
pub struct BridgeSysinfo {
    pub load_1min: String,
    pub mem_used_mb: u64,
    pub mem_total_mb: u64,
    pub disk_used_gb: u64,
    pub disk_total_gb: u64,
    pub uptime_secs: u64,
}

impl Default for BridgeSysinfo {
    fn default() -> (r: BridgeSysinfo)
        ensures
            r.load_1min@ == Seq::<char>::empty(),
            r.mem_used_mb == 0 && r.mem_total_mb == 0,
            r.disk_used_gb == 0 && r.disk_total_gb == 0,
            r.uptime_secs == 0,
    {
        BridgeSysinfo {
            load_1min: String::new(),
            mem_used_mb: 0,
            mem_total_mb: 0,
            disk_used_gb: 0,
            disk_total_gb: 0,
            uptime_secs: 0,
        }
    }
}

/// A part of a whole in percent, rounded down; zero of nothing.
pub open spec fn percent_of(part: nat, whole: nat) -> nat {
    if whole == 0 {
        0
    } else {
        part * 100 / whole
    }
}

/// A time in its two greatest units.
pub open spec fn human_time(s: nat) -> Seq<char> {
    let days = s / 86400;
    let hours = s % 86400 / 3600;
    let mins = s % 3600 / 60;
    if days > 0 {
        decimal::dec(days) + "d "@ + decimal::dec(hours) + "h"@
    } else if hours > 0 {
        decimal::dec(hours) + "h "@ + decimal::dec(mins) + "m"@
    } else {
        decimal::dec(mins) + "m"@
    }
}

impl BridgeSysinfo {
    /// The share of the memory that is in use.
    pub fn mem_percent(&self) -> (r: u64)
        requires
            self.mem_used_mb <= u64::MAX / 100,
        ensures
            r == percent_of(self.mem_used_mb as nat, self.mem_total_mb as nat),
    {
        if self.mem_total_mb == 0 {
            return 0;
        }
        self.mem_used_mb * 100 / self.mem_total_mb
    }

    /// The share of the disk that is in use.
    pub fn disk_percent(&self) -> (r: u64)
        requires
            self.disk_used_gb <= u64::MAX / 100,
        ensures
            r == percent_of(self.disk_used_gb as nat, self.disk_total_gb as nat),
    {
        if self.disk_total_gb == 0 {
            return 0;
        }
        self.disk_used_gb * 100 / self.disk_total_gb
    }

    /// How long the host has been up.
    pub fn uptime_human(&self) -> (r: String)
        ensures
            r@ == human_time(self.uptime_secs as nat),
    {
        let s: u64 = self.uptime_secs;
        let days: u64 = s / 86400;
        let hours: u64 = (s % 86400) / 3600;
        let mins: u64 = (s % 3600) / 60;
        let mut t = String::new();
        if days > 0 {
            push_u64(&mut t, days);
            t.append("d ");
            push_u64(&mut t, hours);
            t.append("h");
            assert(t@ =~= human_time(s as nat));
        } else if hours > 0 {
            push_u64(&mut t, hours);
            t.append("h ");
            push_u64(&mut t, mins);
            t.append("m");
            assert(t@ =~= human_time(s as nat));
        } else {
            push_u64(&mut t, mins);
            t.append("m");
            assert(t@ =~= human_time(s as nat));
        }
        t
    }

    /// The metrics that a value stands for; a field that is missing is empty or zero.
    pub fn from_json(j: &Json) -> (r: Option<BridgeSysinfo>)
        ensures
            match r {
                Some(i) => sysinfo_is(i, j@),
                None => !has_sysinfo(j@),
            },
    {
        if !j.is_record(6) {
            return None;
        }
        match (
            j.default_text("load_1min", 0),
            j.default_u64("mem_used_mb", 1),
            j.default_u64("mem_total_mb", 2),
            j.default_u64("disk_used_gb", 3),
            j.default_u64("disk_total_gb", 4),
            j.default_u64("uptime_secs", 5),
        ) {
            (Some(load_1min), Some(a), Some(b), Some(c), Some(d), Some(e)) => Some(
                BridgeSysinfo {
                    load_1min,
                    mem_used_mb: a,
                    mem_total_mb: b,
                    disk_used_gb: c,
                    disk_total_gb: d,
                    uptime_secs: e,
                },
            ),
            _ => None,
        }
    }
}

/// A share is at most a hundred percent of what is not less.
pub proof fn law_percent_is_bounded(part: nat, whole: nat)
    requires
        part <= whole,
    ensures
        percent_of(part, whole) <= 100,
{
    if whole > 0 {
        assert(part * 100 / whole <= 100) by (nonlinear_arith)
            requires
                part <= whole,
                whole > 0,
        ;
    }
}

/// The metrics are those of the value.
pub open spec fn sysinfo_is(i: BridgeSysinfo, j: JsonV) -> bool {
    &&& record::is_record(j, 6)
    &&& record::default_text(record::field(j, "load_1min"@, 0)) == Some(i.load_1min@)
    &&& record::default_u64(record::field(j, "mem_used_mb"@, 1)) == Some(i.mem_used_mb)
    &&& record::default_u64(record::field(j, "mem_total_mb"@, 2)) == Some(i.mem_total_mb)
    &&& record::default_u64(record::field(j, "disk_used_gb"@, 3)) == Some(i.disk_used_gb)
    &&& record::default_u64(record::field(j, "disk_total_gb"@, 4)) == Some(i.disk_total_gb)
    &&& record::default_u64(record::field(j, "uptime_secs"@, 5)) == Some(i.uptime_secs)
}

/// The value stands for metrics.
pub open spec fn has_sysinfo(j: JsonV) -> bool {
    &&& record::is_record(j, 6)
    &&& record::default_text(record::field(j, "load_1min"@, 0)) is Some
    &&& record::default_u64(record::field(j, "mem_used_mb"@, 1)) is Some
    &&& record::default_u64(record::field(j, "mem_total_mb"@, 2)) is Some
    &&& record::default_u64(record::field(j, "disk_used_gb"@, 3)) is Some
    &&& record::default_u64(record::field(j, "disk_total_gb"@, 4)) is Some
    &&& record::default_u64(record::field(j, "uptime_secs"@, 5)) is Some
}

/// Parse the answer to a request for the metrics.
///
/// The whole text is read as JSON before its members are. So of a repeated member the last one
/// counts, and a member that is not read still has to be one that `serde_json` can hold: with a
/// number out of range or nested too deep it makes the text unreadable.
/// The message for JSON of another shape is this function's own.
pub fn parse_sysinfo(json: &str) -> (r: Result<BridgeSysinfo, String>)
    ensures
        match codec::json_of_text(json@) {
            Ok(j) => match r {
                Ok(i) => sysinfo_is(i, j),
                Err(m) => !has_sysinfo(j) && m@ == "parse sysinfo: not metrics of a host"@,
            },
            Err(e) => r matches Err(m) && m@ == "parse sysinfo: "@ + e,
        },
{
    match Json::parse(json) {
        Ok(j) => match BridgeSysinfo::from_json(&j) {
            Some(i) => Ok(i),
            None => Err("parse sysinfo: not metrics of a host".to_owned()),
        },
        Err(e) => {
            let mut s = "parse sysinfo: ".to_owned();
            s.append(&e);
            Err(s)
        },
    }
}

// ---- requests ----

/// The client of the agent at one address.
#[derive(Debug, Clone)]
pub struct BridgeClient {
    pub base_url: String,
}

fn trim_end_of(s: &str, x: char) -> (r: String)
    ensures
        r@ == text::drop_end(s@, text::only(x)),
{
    let v = chars_of(s);
    let ghost p = text::only(x);
    let mut j: usize = v.len();
    assert(v@.take(j as int) =~= v@);
    while j > 0 && v[j - 1] == x
        invariant
            j <= v@.len(),
            p == text::only(x),
            text::drop_end(v@, p) == text::drop_end(v@.take(j as int), p),
        decreases j,
    {
        assert(v@.take(j as int).drop_last() =~= v@.take(j - 1));
        j -= 1;
    }
    let r = string_of(&v, 0, j);
    assert(r@ =~= v@.take(j as int));
    r
}

impl BridgeClient {
    /// The client of the agent at that address; slashes at its end do not count.
    pub fn new(url: String) -> (r: BridgeClient)
        ensures
            r.base_url@ == text::drop_end(url@, text::only('/')),
    {
        BridgeClient { base_url: trim_end_of(&url, '/') }
    }

    /// The address of a path of the agent.
    pub fn url(&self, path: &str) -> (r: String)
        ensures
            r@ == self.base_url@ + path@,
    {
        let mut s = self.base_url.clone();
        s.append(path);
        s
    }

    /// The path of a request to add a user.
    pub fn add_user_path(uuid: &str, email: &str) -> (r: String)
        ensures
            r@ == "/add-user/"@ + uuid@ + "/"@ + email@,
    {
        let mut s = "/add-user/".to_owned();
        s.append(uuid);
        s.append("/");
        s.append(email);
        s
    }

    /// The path of a request to remove a user.
    pub fn del_user_path(email: &str) -> (r: String)
        ensures
            r@ == "/del-user/"@ + email@,
    {
        let mut s = "/del-user/".to_owned();
        s.append(email);
        s
    }

    /// Whether the agent says that it is well.
    pub fn health(body: &str) -> (r: bool)
        ensures
            r == text::has(body@, "true"@),
    {
        contains(body, "true")
    }

    /// Whether the agent accepted a change; what it said is the error.
    pub fn accepted(body: String) -> (r: Result<(), String>)
        ensures
            match r {
                Ok(()) => text::has(body@, "true"@),
                Err(e) => !text::has(body@, "true"@) && e == body,
            },
    {
        if contains(&body, "true") {
            Ok(())
        } else {
            Err(body)
        }
    }
}

// ---- traffic ----

/// A counter in an answer: a number, or one written as text; zero otherwise.
pub open spec fn numeric(v: Option<JsonV>) -> nat {
    match v {
        Some(JsonV::Str(s)) => match decimal::parse_unsigned(s, u64::MAX as nat) {
            Some(n) => n,
            None => 0,
        },
        Some(j) => match j.as_u64() {
            Some(n) => n as nat,
            None => 0,
        },
        None => 0,
    }
}

/// The name and the value of a counter in an answer.
pub open spec fn counter_of(j: JsonV) -> Option<(Seq<char>, nat)> {
    if !record::is_record(j, 2) {
        None
    } else {
        match record::default_text(record::field(j, "name"@, 0)) {
            Some(name) => Some((name, numeric(record::field(j, "value"@, 1)))),
            None => None,
        }
    }
}

/// The list under the one field of an answer; none where the field is missing.
pub open spec fn listed(j: JsonV, k: Seq<char>) -> Option<Seq<JsonV>> {
    if !record::is_record(j, 1) {
        None
    } else {
        match record::field(j, k, 0) {
            Some(x) => x.as_array(),
            None => Some(Seq::empty()),
        }
    }
}

/// The place of an email in a list from `i` on.
pub open spec fn place(t: Seq<(Seq<char>, nat, nat)>, email: Seq<char>, i: int) -> Option<int>
    decreases t.len() - i,
{
    if i < 0 || i >= t.len() {
        None
    } else if t[i].0 == email {
        Some(i)
    } else {
        place(t, email, i + 1)
    }
}

/// One user's traffic with one direction set; another direction changes nothing.
pub open spec fn with_direction(
    x: (Seq<char>, nat, nat),
    direction: Seq<char>,
    n: nat,
) -> (Seq<char>, nat, nat) {
    if direction == "uplink"@ {
        (x.0, n, x.2)
    } else if direction == "downlink"@ {
        (x.0, x.1, n)
    } else {
        x
    }
}

/// The list with one counter more: `user>>>EMAIL>>>traffic>>>DIRECTION`. Other names change nothing.
pub open spec fn counted(
    t: Seq<(Seq<char>, nat, nat)>,
    name: Seq<char>,
    n: nat,
) -> Seq<(Seq<char>, nat, nat)> {
    let parts = text::pieces(name, ">>>"@);
    if parts.len() >= 4 && parts[0] == "user"@ && parts[2] == "traffic"@ {
        match place(t, parts[1], 0) {
            Some(i) => t.update(i, with_direction(t[i], parts[3], n)),
            None => t.push(with_direction((parts[1], 0, 0), parts[3], n)),
        }
    } else {
        t
    }
}

/// The traffic that the counters give.
pub open spec fn traffic_in(a: Seq<JsonV>) -> Seq<(Seq<char>, nat, nat)>
    decreases a.len(),
{
    if a.len() == 0 {
        Seq::empty()
    } else {
        match counter_of(a.last()) {
            Some((name, n)) => counted(traffic_in(a.drop_last()), name, n),
            None => traffic_in(a.drop_last()),
        }
    }
}

/// The traffic in an answer, given what it is as JSON; none where it is no list of counters.
pub open spec fn bridge_traffic(parsed: Option<JsonV>) -> Seq<(Seq<char>, nat, nat)> {
    match parsed {
        Some(j) => match listed(j, "stat"@) {
            Some(a) => if forall|i: int|
                0 <= i < a.len() ==> counter_of(#[trigger] a[i]) is Some {
                traffic_in(a)
            } else {
                Seq::empty()
            },
            None => Seq::empty(),
        },
        None => Seq::empty(),
    }
}

/// The meaning of a list of traffic.
pub open spec fn traffic_views(s: Seq<(String, u64, u64)>) -> Seq<(Seq<char>, nat, nat)> {
    Seq::new(s.len(), |i: int| (s[i].0@, s[i].1 as nat, s[i].2 as nat))
}

fn numeric_value(v: Option<&Json>) -> (r: u64)
    ensures
        r == numeric(
            match v {
                Some(j) => Some(j@),
                None => None,
            },
        ),
{
    match v {
        Some(Json::Str(s)) => match parse_max(s, u64::MAX) {
            Some(n) => n,
            None => 0,
        },
        Some(j) => match j.as_u64() {
            Some(n) => n,
            None => 0,
        },
        None => 0,
    }
}

fn place_of(t: &Vec<(String, u64, u64)>, email: &str) -> (r: Option<usize>)
    ensures
        match r {
            Some(i) => place(traffic_views(t@), email@, 0) == Some(i as int) && i < t@.len(),
            None => place(traffic_views(t@), email@, 0) is None,
        },
{
    let mut i: usize = 0;
    while i < t.len()
        invariant
            i <= t@.len(),
            place(traffic_views(t@), email@, 0) == place(traffic_views(t@), email@, i as int),
        decreases t.len() - i,
    {
        if same(&t[i].0, email) {
            return Some(i);
        }
        i += 1;
    }
    None
}

fn count(t: &mut Vec<(String, u64, u64)>, name: &str, n: u64)
    ensures
        traffic_views(final(t)@) == counted(traffic_views(old(t)@), name@, n as nat),
{
    proof {
        reveal_strlit(">>>");
    }
    let parts = split_on(name, ">>>");
    let ghost ps = text::texts(parts@);
    let ghost before = traffic_views(t@);
    if parts.len() < 4 {
        return;
    }
    assert(ps[0] == parts@[0]@ && ps[1] == parts@[1]@ && ps[2] == parts@[2]@ && ps[3]
        == parts@[3]@);
    if !same(&parts[0], "user") || !same(&parts[2], "traffic") {
        return;
    }
    let i: usize = match place_of(t, &parts[1]) {
        Some(i) => i,
        None => {
            t.push((parts[1].clone(), 0, 0));
            t.len() - 1
        },
    };
    let ghost middle = traffic_views(t@);
    proof {
        if place(before, ps[1], 0) is None {
            assert(middle =~= before.push((ps[1], 0nat, 0nat)));
        } else {
            assert(middle =~= before);
        }
    }
    if same(&parts[3], "uplink") {
        t[i].1 = n;
    } else if same(&parts[3], "downlink") {
        t[i].2 = n;
    }
    proof {
        let x = with_direction(middle[i as int], ps[3], n as nat);
        assert(traffic_views(t@) =~= middle.update(i as int, x));
        if place(before, ps[1], 0) is None {
            assert(middle.update(i as int, x) =~= before.push(x));
        }
    }
}

fn list_at<'a>(j: &'a Json, key: &str) -> (r: Option<Option<&'a Vec<Json>>>)
    ensures
        match r {
            Some(Some(a)) => listed(j@, key@) == Some(json::views(a@)),
            Some(None) => listed(j@, key@) == Some(Seq::<JsonV>::empty()),
            None => listed(j@, key@) is None,
        },
{
    if !j.is_record(1) {
        return None;
    }
    match j.field(key, 0) {
        Some(x) => match x.as_array() {
            Some(a) => Some(Some(a)),
            None => None,
        },
        None => Some(None),
    }
}

/// The traffic in an answer, given what it is as JSON.
pub fn bridge_stats_from(parsed: &Option<Json>) -> (r: Vec<(String, u64, u64)>)
    ensures
        traffic_views(r@) == bridge_traffic(answers::opt_view(*parsed)),
{
    let none: Vec<(String, u64, u64)> = Vec::new();
    assert(traffic_views(none@) =~= Seq::empty());
    match parsed {
        Some(j) => match list_at(j, "stat") {
            Some(Some(a)) => {
                let ghost s = json::views(a@);
                let mut out: Vec<(String, u64, u64)> = Vec::new();
                let mut i: usize = 0;
                assert(s.take(0) =~= Seq::empty());
                assert(traffic_views(out@) =~= Seq::empty());
                while i < a.len()
                    invariant
                        i <= a@.len(),
                        s == json::views(a@),
                        listed(j@, "stat"@) == Some(s),
                        *parsed == Some(*j),
                        traffic_views(none@) == Seq::<(Seq<char>, nat, nat)>::empty(),
                        traffic_views(out@) == traffic_in(s.take(i as int)),
                        forall|k: int| 0 <= k < i ==> counter_of(#[trigger] s[k]) is Some,
                    decreases a.len() - i,
                {
                    assert(s.take(i + 1).drop_last() =~= s.take(i as int));
                    assert(s.take(i + 1).last() == s[i as int]);
                    let e = &a[i];
                    if !e.is_record(2) {
                        assert(counter_of(s[i as int]) is None);
                        return none;
                    }
                    match e.default_text("name", 0) {
                        Some(name) => {
                            let n: u64 = numeric_value(e.field("value", 1));
                            count(&mut out, &name, n);
                        },
                        None => {
                            assert(counter_of(s[i as int]) is None);
                            return none;
                        },
                    }
                    i += 1;
                }
                assert(s.take(i as int) =~= s);
                out
            },
            _ => none,
        },
        None => none,
    }
}

/// Parse the traffic in the agent's answer: each user by its email, up and down.
///
/// The whole text is read as JSON before its members are. So of a repeated member the last one
/// counts, and a member that is not read still has to be one that `serde_json` can hold: with a
/// number out of range or nested too deep it makes the text unreadable. Then there
/// are no users in it.
pub fn parse_bridge_stats(json: &str) -> (r: Vec<(String, u64, u64)>)
    ensures
        traffic_views(r@) == bridge_traffic(answers::as_json(json@)),
{
    match Json::parse(json) {
        Ok(j) => bridge_stats_from(&Some(j)),
        Err(_) => bridge_stats_from(&None),
    }
}

/// `place` gives the least place of an email.
/// The place of the first user with that email.
pub proof fn lemma_place(t: Seq<(Seq<char>, nat, nat)>, email: Seq<char>, i: int)
    requires
        0 <= i,
    ensures
        match place(t, email, i) {
            Some(k) => i <= k < t.len() && t[k].0 == email && forall|j: int|
                i <= j < k ==> (#[trigger] t[j]).0 != email,
            None => forall|j: int| i <= j < t.len() ==> (#[trigger] t[j]).0 != email,
        },
    decreases t.len() - i,
{
    if i < t.len() && t[i].0 != email {
        lemma_place(t, email, i + 1);
    }
}

/// No user is listed twice.
pub proof fn law_traffic_lists_users_once(a: Seq<JsonV>)
    ensures
        forall|i: int, j: int|
            0 <= i < j < traffic_in(a).len() ==> (#[trigger] traffic_in(a)[i]).0 != (
            #[trigger] traffic_in(a)[j]).0,
    decreases a.len(),
{
    if a.len() > 0 {
        law_traffic_lists_users_once(a.drop_last());
        let t = traffic_in(a.drop_last());
        match counter_of(a.last()) {
            Some((name, n)) => {
                let parts = text::pieces(name, ">>>"@);
                lemma_place(t, parts[1], 0);
                let u = counted(t, name, n);
                assert forall|i: int, j: int| 0 <= i < j < u.len() implies (#[trigger] u[i]).0 != (
                #[trigger] u[j]).0 by {
                    if u.len() == t.len() {
                        assert(u[i].0 == t[i].0 && u[j].0 == t[j].0);
                    } else {
                        assert(u[i].0 == t[i].0);
                        if j < t.len() {
                            assert(u[j] == t[j]);
                        }
                    }
                }
            },
            None => {},
        }
    }
}

// ---- connections ----

/// A user and the number of its connections, in an answer.
pub open spec fn connections_of(j: JsonV) -> Option<(Seq<char>, u32)> {
    if !record::is_record(j, 2) {
        None
    } else {
        match (
            record::required_text(record::field(j, "email"@, 0)),
            record::field(j, "online"@, 1),
        ) {
            (Some(email), Some(JsonV::UInt(n))) => if n <= u32::MAX {
                Some((email, n as u32))
            } else {
                None
            },
            _ => None,
        }
    }
}

/// The connections in an answer, given what it is as JSON; none where it is no list of users.
pub open spec fn bridge_connections(parsed: Option<JsonV>) -> Seq<(Seq<char>, u32)> {
    match parsed {
        Some(j) => match listed(j, "users"@) {
            Some(a) => if forall|i: int|
                0 <= i < a.len() ==> connections_of(#[trigger] a[i]) is Some {
                Seq::new(a.len(), |i: int| connections_of(a[i])->0)
            } else {
                Seq::empty()
            },
            None => Seq::empty(),
        },
        None => Seq::empty(),
    }
}

/// The meaning of a list of connections.
pub open spec fn connection_views(s: Seq<(String, u32)>) -> Seq<(Seq<char>, u32)> {
    Seq::new(s.len(), |i: int| (s[i].0@, s[i].1))
}

fn connections_from(j: &Json) -> (r: Option<(String, u32)>)
    ensures
        match r {
            Some(x) => connections_of(j@) == Some((x.0@, x.1)),
            None => connections_of(j@) is None,
        },
{
    if !j.is_record(2) {
        return None;
    }
    match (j.required_text("email", 0), j.field("online", 1)) {
        (Some(email), Some(x)) => match x.as_u64() {
            Some(n) => if n <= u32::MAX as u64 {
                Some((email, n as u32))
            } else {
                None
            },
            None => None,
        },
        _ => None,
    }
}

/// The connections in an answer, given what it is as JSON.
pub fn bridge_online_from(parsed: &Option<Json>) -> (r: Vec<(String, u32)>)
    ensures
        connection_views(r@) == bridge_connections(answers::opt_view(*parsed)),
{
    let none: Vec<(String, u32)> = Vec::new();
    assert(connection_views(none@) =~= Seq::empty());
    match parsed {
        Some(j) => match list_at(j, "users") {
            Some(Some(a)) => {
                let ghost s = json::views(a@);
                let mut out: Vec<(String, u32)> = Vec::new();
                let mut i: usize = 0;
                while i < a.len()
                    invariant
                        i <= a@.len(),
                        s == json::views(a@),
                        listed(j@, "users"@) == Some(s),
                        *parsed == Some(*j),
                        connection_views(none@) == Seq::<(Seq<char>, u32)>::empty(),
                        out@.len() == i,
                        forall|k: int|
                            0 <= k < i ==> connections_of(#[trigger] s[k]) == Some(
                                (out@[k].0@, out@[k].1),
                            ),
                    decreases a.len() - i,
                {
                    match connections_from(&a[i]) {
                        Some(x) => {
                            out.push(x);
                        },
                        None => {
                            assert(connections_of(s[i as int]) is None);
                            return none;
                        },
                    }
                    i += 1;
                }
                assert(connection_views(out@) =~= bridge_connections(Some(j@)));
                out
            },
            Some(None) => {
                assert(bridge_connections(Some(j@)) =~= Seq::empty());
                none
            },
            None => none,
        },
        None => none,
    }
}

/// Parse the connections in the agent's answer: each user by its email.
///
/// The whole text is read as JSON before its members are. So of a repeated member the last one
/// counts, and a member that is not read still has to be one that `serde_json` can hold: with a
/// number out of range or nested too deep it makes the text unreadable. Then there
/// are no users in it.
pub fn parse_bridge_online(json: &str) -> (r: Vec<(String, u32)>)
    ensures
        connection_views(r@) == bridge_connections(answers::as_json(json@)),
{
    match Json::parse(json) {
        Ok(j) => bridge_online_from(&Some(j)),
        Err(_) => bridge_online_from(&None),
    }
}

// ---- laws ----

/// **A share is in percent, rounded down.**
pub proof fn law_share_is_in_percent(i: BridgeSysinfo, mem: u64, disk: u64)
    requires
        i.mem_used_mb <= u64::MAX / 100,
        i.disk_used_gb <= u64::MAX / 100,
        call_ensures(BridgeSysinfo::mem_percent, (&i,), mem),
        call_ensures(BridgeSysinfo::disk_percent, (&i,), disk),
    ensures
        i.mem_total_mb == 0 ==> mem == 0,
        i.disk_total_gb == 0 ==> disk == 0,
        i.mem_total_mb > 0 ==> mem * i.mem_total_mb <= i.mem_used_mb * 100 < (mem + 1)
            * i.mem_total_mb,
        i.disk_total_gb > 0 ==> disk * i.disk_total_gb <= i.disk_used_gb * 100 < (disk + 1)
            * i.disk_total_gb,
{
    lemma_percent(i.mem_used_mb as nat, i.mem_total_mb as nat);
    lemma_percent(i.disk_used_gb as nat, i.disk_total_gb as nat);
}

proof fn lemma_percent(part: nat, whole: nat)
    ensures
        whole > 0 ==> percent_of(part, whole) * whole <= part * 100 < (percent_of(part, whole) + 1)
            * whole,
{
    if whole > 0 {
        let q = part * 100 / whole;
        vstd::arithmetic::div_mod::lemma_fundamental_div_mod((part * 100) as int, whole as int);
        vstd::arithmetic::div_mod::lemma_mod_bound((part * 100) as int, whole as int);
        assert(whole * q == q * whole) by (nonlinear_arith);
        assert((q + 1) * whole == q * whole + whole) by (nonlinear_arith);
    }
}

/// **A time is shown in its two greatest units**, and no less than a day, an hour or a minute is left
/// out: what is shown is short of the time by less than its lesser unit.
pub proof fn law_time_is_shown(i: BridgeSysinfo, r: String)
    requires
        call_ensures(BridgeSysinfo::uptime_human, (&i,), r),
    ensures
        exists|d: nat, h: nat, m: nat| #[trigger]
            time_shown(r@, i.uptime_secs as nat, d, h, m),
{
    let s = i.uptime_secs as nat;
    lemma_time(s);
    assert(time_shown(r@, s, s / 86400, s % 86400 / 3600, s % 3600 / 60));
}

/// The text shows the time in days, hours and minutes, the lesser of them only where the greater are
/// none.
pub open spec fn time_shown(r: Seq<char>, s: nat, d: nat, h: nat, m: nat) -> bool {
    &&& h < 24 && m < 60
    &&& d * 86400 + h * 3600 + m * 60 <= s < d * 86400 + h * 3600 + m * 60 + 60
    &&& r == (if d > 0 {
        decimal::dec(d) + "d "@ + decimal::dec(h) + "h"@
    } else if h > 0 {
        decimal::dec(h) + "h "@ + decimal::dec(m) + "m"@
    } else {
        decimal::dec(m) + "m"@
    })
}

proof fn lemma_time(s: nat)
    ensures
        s % 86400 / 3600 < 24,
        s % 3600 / 60 < 60,
        s / 86400 * 86400 + s % 86400 / 3600 * 3600 + s % 3600 / 60 * 60 <= s,
        s < s / 86400 * 86400 + s % 86400 / 3600 * 3600 + s % 3600 / 60 * 60 + 60,
{
    assert(s % 3600 == s % 86400 % 3600);
}

/// **The metrics are those of the answer**, each of the member of its own name; one that is missing
/// is empty or zero.
pub proof fn law_metrics_are_the_members(j: Json, r: Option<BridgeSysinfo>)
    requires
        call_ensures(BridgeSysinfo::from_json, (&j,), r),
        j@ is Object,
    ensures
        r matches Some(i) ==> {
            &&& match j@.get("load_1min"@) {
                Some(x) => x == JsonV::Str(i.load_1min@),
                None => i.load_1min@.len() == 0,
            }
            &&& match j@.get("mem_used_mb"@) {
                Some(x) => x == JsonV::UInt(i.mem_used_mb),
                None => i.mem_used_mb == 0,
            }
            &&& match j@.get("mem_total_mb"@) {
                Some(x) => x == JsonV::UInt(i.mem_total_mb),
                None => i.mem_total_mb == 0,
            }
            &&& match j@.get("disk_used_gb"@) {
                Some(x) => x == JsonV::UInt(i.disk_used_gb),
                None => i.disk_used_gb == 0,
            }
            &&& match j@.get("disk_total_gb"@) {
                Some(x) => x == JsonV::UInt(i.disk_total_gb),
                None => i.disk_total_gb == 0,
            }
            &&& match j@.get("uptime_secs"@) {
                Some(x) => x == JsonV::UInt(i.uptime_secs),
                None => i.uptime_secs == 0,
            }
        },
{
}

/// **The agent is asked at its address**, to which a path is added; slashes at the end of the address
/// are dropped, and nothing else of it.
pub proof fn law_agent_is_asked_at_its_address(
    url: String,
    c: BridgeClient,
    path: &str,
    r: String,
)
    requires
        call_ensures(BridgeClient::new, (url,), c),
        call_ensures(BridgeClient::url, (&c, path), r),
    ensures
        r@ == c.base_url@ + path@,
        c.base_url@.is_prefix_of(url@),
        c.base_url@.len() > 0 ==> c.base_url@.last() != '/',
        forall|i: int| c.base_url@.len() <= i < url@.len() ==> #[trigger] url@[i] == '/',
{
    lemma_drop_slashes(url@);
}

proof fn lemma_drop_slashes(s: Seq<char>)
    ensures
        text::drop_end(s, text::only('/')).len() <= s.len(),
        text::drop_end(s, text::only('/')).is_prefix_of(s),
        text::drop_end(s, text::only('/')).len() > 0 ==> text::drop_end(
            s,
            text::only('/'),
        ).last() != '/',
        forall|i: int|
            text::drop_end(s, text::only('/')).len() <= i < s.len() ==> #[trigger] s[i] == '/',
    decreases s.len(),
{
    if s.len() > 0 && s.last() == '/' {
        let t = s.drop_last();
        lemma_drop_slashes(t);
        let d = text::drop_end(t, text::only('/'));
        assert(d =~= s.subrange(0, d.len() as int));
        assert forall|i: int| d.len() <= i < s.len() implies #[trigger] s[i] == '/' by {
            if i < t.len() {
                assert(t[i] == '/');
            }
        }
    } else {
        assert(s =~= s.subrange(0, s.len() as int));
    }
}

/// The value is a counter for the traffic of that user in that direction: its name is
/// `user>>>EMAIL>>>traffic>>>DIRECTION`, and possibly more behind another `>>>`.
pub open spec fn counts_for(j: JsonV, email: Seq<char>, direction: Seq<char>) -> bool {
    j.get("name"@) matches Some(JsonV::Str(name)) && {
        let p = text::pieces(name, ">>>"@);
        p.len() >= 4 && p[0] == "user"@ && p[1] == email && p[2] == "traffic"@ && p[3] == direction
    }
}

/// The value is a counter of that number: as a number, or as a text of digits.
pub open spec fn counts(j: JsonV, n: nat) -> bool {
    match j.get("value"@) {
        Some(JsonV::UInt(x)) => x == n,
        Some(JsonV::Str(s)) => decimal::parse_unsigned(s, u64::MAX as nat) == Some(n),
        _ => false,
    }
}

/// A row of the traffic gives the number in the direction.
pub open spec fn row_gives(
    x: (Seq<char>, nat, nat),
    email: Seq<char>,
    direction: Seq<char>,
    n: nat,
) -> bool {
    &&& x.0 == email
    &&& direction == "uplink"@ ==> x.1 == n
    &&& direction == "downlink"@ ==> x.2 == n
}

proof fn lemma_directions_differ()
    ensures
        "uplink"@ != "downlink"@,
{
    reveal_strlit("uplink");
    reveal_strlit("downlink");
    assert("uplink"@.len() == 6 && "downlink"@.len() == 8);
}

proof fn lemma_last_counter(
    a: Seq<JsonV>,
    k: int,
    email: Seq<char>,
    direction: Seq<char>,
    n: nat,
)
    requires
        0 <= k < a.len(),
        direction == "uplink"@ || direction == "downlink"@,
        forall|j: int| 0 <= j < a.len() ==> (#[trigger] a[j]) is Object,
        counts_for(a[k], email, direction),
        counts(a[k], n),
        forall|j: int| k < j < a.len() ==> !counts_for(#[trigger] a[j], email, direction),
    ensures
        exists|i: int|
            0 <= i < traffic_in(a).len() && row_gives(
                #[trigger] traffic_in(a)[i],
                email,
                direction,
                n,
            ),
    decreases a.len(),
{
    lemma_directions_differ();
    let b = a.drop_last();
    let t = traffic_in(b);
    let x = a.last();
    let all = traffic_in(a);
    assert(x is Object);
    if k == a.len() - 1 {
        assert(record::field(x, "name"@, 0) == x.get("name"@));
        assert(record::field(x, "value"@, 1) == x.get("value"@));
        let name = x.get("name"@)->0->Str_0;
        assert(counter_of(x) == Some((name, n)));
        let u = counted(t, name, n);
        lemma_place(t, email, 0);
        match place(t, email, 0) {
            Some(i) => {
                assert(row_gives(all[i], email, direction, n));
            },
            None => {
                assert(row_gives(all[t.len() as int], email, direction, n));
            },
        }
    } else {
        assert forall|j: int| 0 <= j < b.len() implies (#[trigger] b[j]) is Object by {
            assert(b[j] == a[j]);
        }
        assert forall|j: int| k < j < b.len() implies !counts_for(
            #[trigger] b[j],
            email,
            direction,
        ) by {
            assert(b[j] == a[j]);
        }
        lemma_last_counter(b, k, email, direction, n);
        let i = choose|i: int|
            0 <= i < t.len() && row_gives(#[trigger] t[i], email, direction, n);
        assert(!counts_for(a[a.len() - 1], email, direction));
        match counter_of(x) {
            Some((name, m)) => {
                let p = text::pieces(name, ">>>"@);
                assert(record::field(x, "name"@, 0) == x.get("name"@));
                if x.get("name"@) is None {
                    lemma_empty_has_one_piece();
                    assert(p.len() == 1);
                    assert(all[i] == t[i]);
                } else {
                    assert(x.get("name"@) == Some(JsonV::Str(name)));
                    lemma_place(t, p[1], 0);
                    assert(row_gives(all[i], email, direction, n));
                }
            },
            None => {
                assert(all[i] == t[i]);
            },
        }
    }
}

proof fn lemma_empty_has_one_piece()
    ensures
        text::pieces(Seq::empty(), ">>>"@).len() == 1,
{
    reveal_strlit(">>>");
}

/// **The bridge's traffic is that of the last counter for it.** Where an answer counts `n` for a user
/// in a direction, and no later counter of the answer is for the same user and direction, the user
/// is listed with `n` in that direction. Every user is listed once.
pub proof fn law_traffic_is_the_last_counter(
    parsed: Option<Json>,
    r: Vec<(String, u64, u64)>,
    a: Seq<JsonV>,
    k: int,
    email: Seq<char>,
    n: nat,
)
    requires
        call_ensures(bridge_stats_from, (&parsed,), r),
        parsed is Some,
        parsed->0@ is Object,
        parsed->0@.get("stat"@) == Some(JsonV::Array(a)),
        0 <= k < a.len(),
        forall|j: int|
            0 <= j < a.len() ==> (#[trigger] a[j]) is Object && (match a[j].get("name"@) {
                Some(JsonV::Str(_)) => true,
                None => true,
                _ => false,
            }),
        counts(a[k], n),
    ensures
        counts_for(a[k], email, "uplink"@) && (forall|j: int|
            k < j < a.len() ==> !counts_for(#[trigger] a[j], email, "uplink"@)) ==> exists|i: int|
            0 <= i < r@.len() && (#[trigger] r@[i]).0@ == email && r@[i].1 == n,
        counts_for(a[k], email, "downlink"@) && (forall|j: int|
            k < j < a.len() ==> !counts_for(#[trigger] a[j], email, "downlink"@)) ==> exists|
            i: int,
        |
            0 <= i < r@.len() && (#[trigger] r@[i]).0@ == email && r@[i].2 == n,
        forall|i: int, j: int|
            0 <= i < j < r@.len() ==> (#[trigger] r@[i]).0@ != (#[trigger] r@[j]).0@,
{
    let t = traffic_in(a);
    assert forall|j: int| 0 <= j < a.len() implies counter_of(#[trigger] a[j]) is Some by {
        assert(record::field(a[j], "name"@, 0) == a[j].get("name"@));
    }
    assert(record::field(parsed->0@, "stat"@, 0) == parsed->0@.get("stat"@));
    assert(traffic_views(r@) == t);
    assert(traffic_views(r@).len() == r@.len());
    if counts_for(a[k], email, "uplink"@) && (forall|j: int|
        k < j < a.len() ==> !counts_for(#[trigger] a[j], email, "uplink"@)) {
        lemma_last_counter(a, k, email, "uplink"@, n);
        let i = choose|i: int|
            0 <= i < t.len() && row_gives(#[trigger] t[i], email, "uplink"@, n);
        assert(t[i] == (r@[i].0@, r@[i].1 as nat, r@[i].2 as nat));
    }
    if counts_for(a[k], email, "downlink"@) && (forall|j: int|
        k < j < a.len() ==> !counts_for(#[trigger] a[j], email, "downlink"@)) {
        lemma_last_counter(a, k, email, "downlink"@, n);
        let i = choose|i: int|
            0 <= i < t.len() && row_gives(#[trigger] t[i], email, "downlink"@, n);
        assert(t[i] == (r@[i].0@, r@[i].1 as nat, r@[i].2 as nat));
    }
    law_traffic_lists_users_once(a);
    assert forall|i: int, j: int| 0 <= i < j < r@.len() implies (#[trigger] r@[i]).0@ != (
    #[trigger] r@[j]).0@ by {
        assert(t[i].0 == r@[i].0@ && t[j].0 == r@[j].0@);
    }
}

/// **The bridge's connections are those it lists**: one row for each element of `users`, in order,
/// with its email and its number.
pub proof fn law_connections_are_those_listed(
    parsed: Option<Json>,
    r: Vec<(String, u32)>,
    a: Seq<JsonV>,
)
    requires
        call_ensures(bridge_online_from, (&parsed,), r),
        parsed is Some,
        parsed->0@ is Object,
        parsed->0@.get("users"@) == Some(JsonV::Array(a)),
        forall|j: int|
            0 <= j < a.len() ==> (#[trigger] a[j]) is Object && (a[j].get("email"@) matches Some(
                JsonV::Str(_),
            )) && (a[j].get("online"@) matches Some(JsonV::UInt(n)) && n <= u32::MAX),
    ensures
        r@.len() == a.len(),
        forall|j: int|
            0 <= j < a.len() ==> (#[trigger] a[j]).get("email"@) == Some(JsonV::Str(r@[j].0@))
                && a[j].get("online"@) == Some(JsonV::UInt(r@[j].1 as u64)),
{
    assert(record::field(parsed->0@, "users"@, 0) == parsed->0@.get("users"@));
    assert forall|j: int| 0 <= j < a.len() implies connections_of(#[trigger] a[j]) is Some by {
        assert(record::field(a[j], "email"@, 0) == a[j].get("email"@));
        assert(record::field(a[j], "online"@, 1) == a[j].get("online"@));
    }
    let v = connection_views(r@);
    assert(v.len() == r@.len());
    assert forall|j: int| 0 <= j < a.len() implies (#[trigger] a[j]).get("email"@) == Some(
        JsonV::Str(r@[j].0@),
    ) && a[j].get("online"@) == Some(JsonV::UInt(r@[j].1 as u64)) by {
        assert(v[j] == connections_of(a[j])->0);
        assert(v[j] == (r@[j].0@, r@[j].1));
        assert(record::field(a[j], "email"@, 0) == a[j].get("email"@));
        assert(record::field(a[j], "online"@, 1) == a[j].get("online"@));
    }
}

/// **What is read of the agent's text is what is read of its JSON.**
pub proof fn law_bridge_text_is_its_json(
    json: &str,
    parsed: Option<Json>,
    t: Vec<(String, u64, u64)>,
    u: Vec<(String, u64, u64)>,
    c: Vec<(String, u32)>,
    d: Vec<(String, u32)>,
)
    requires
        call_ensures(parse_bridge_stats, (json,), t),
        call_ensures(bridge_stats_from, (&parsed,), u),
        call_ensures(parse_bridge_online, (json,), c),
        call_ensures(bridge_online_from, (&parsed,), d),
        match codec::json_of_text(json@) {
            Ok(j) => parsed matches Some(p) && p@ == j,
            Err(_) => parsed is None,
        },
    ensures
        traffic_views(t@) == traffic_views(u@),
        connection_views(c@) == connection_views(d@),
{
}

/// **The agent is well, and has accepted a change, where it says so**; what else it said is the error.
pub proof fn law_agent_is_taken_at_its_word(
    body: &str,
    said: String,
    a: Seq<char>,
    b: Seq<char>,
    up: bool,
    r: Result<(), String>,
)
    requires
        said@ == body@,
        call_ensures(BridgeClient::health, (body,), up),
        call_ensures(BridgeClient::accepted, (said,), r),
    ensures
        body@ == a + "true"@ + b ==> up && r is Ok,
        up == (r is Ok),
        r matches Err(e) ==> e@ == body@,
        up ==> exists|i: int|
            #![trigger body@.subrange(i, i + 4)]
            0 <= i && i + 4 <= body@.len() && body@.subrange(i, i + 4) == "true"@,
{
    let p = "true"@;
    reveal_strlit("true");
    text::lemma_find_from(body@, p, 0);
    if body@ == a + p + b {
        let i = a.len() as int;
        assert(body@.subrange(i, i + 4) =~= p);
        assert(text::matches_at(body@, p, i));
    }
    if up {
        let i = text::find(body@, p)->0;
        assert(body@.subrange(i, i + 4) == p);
    }
}

/// The value is a counter for the traffic of that user, in whatever direction.
pub open spec fn counts_user(j: JsonV, email: Seq<char>) -> bool {
    j.get("name"@) matches Some(JsonV::Str(name)) && {
        let p = text::pieces(name, ">>>"@);
        p.len() >= 4 && p[0] == "user"@ && p[1] == email && p[2] == "traffic"@
    }
}

/// A row is of a user that is counted, and nothing is counted in a direction without a counter.
pub open spec fn row_is_counted(a: Seq<JsonV>, x: (Seq<char>, nat, nat)) -> bool {
    &&& exists|k: int| 0 <= k < a.len() && counts_user(#[trigger] a[k], x.0)
    &&& (forall|k: int| 0 <= k < a.len() ==> !counts_for(#[trigger] a[k], x.0, "uplink"@)) ==> x.1
        == 0
    &&& (forall|k: int| 0 <= k < a.len() ==> !counts_for(#[trigger] a[k], x.0, "downlink"@)) ==> x.2
        == 0
}

proof fn lemma_row_stays(b: Seq<JsonV>, a: Seq<JsonV>, x: (Seq<char>, nat, nat))
    requires
        a.len() > 0,
        b == a.drop_last(),
        row_is_counted(b, x),
    ensures
        row_is_counted(a, x),
{
    let k = choose|k: int| 0 <= k < b.len() && counts_user(#[trigger] b[k], x.0);
    assert(a[k] == b[k]);
    if forall|k: int| 0 <= k < a.len() ==> !counts_for(#[trigger] a[k], x.0, "uplink"@) {
        assert forall|k: int| 0 <= k < b.len() implies !counts_for(
            #[trigger] b[k],
            x.0,
            "uplink"@,
        ) by {
            assert(a[k] == b[k]);
        }
    }
    if forall|k: int| 0 <= k < a.len() ==> !counts_for(#[trigger] a[k], x.0, "downlink"@) {
        assert forall|k: int| 0 <= k < b.len() implies !counts_for(
            #[trigger] b[k],
            x.0,
            "downlink"@,
        ) by {
            assert(a[k] == b[k]);
        }
    }
}

proof fn lemma_rows_are_counted(a: Seq<JsonV>)
    requires
        forall|j: int| 0 <= j < a.len() ==> (#[trigger] a[j]) is Object,
    ensures
        forall|i: int|
            0 <= i < traffic_in(a).len() ==> row_is_counted(a, #[trigger] traffic_in(a)[i]),
    decreases a.len(),
{
    if a.len() > 0 {
        lemma_directions_differ();
        let b = a.drop_last();
        let t = traffic_in(b);
        let all = traffic_in(a);
        let last = a.len() - 1;
        let x = a[last];
        assert forall|j: int| 0 <= j < b.len() implies (#[trigger] b[j]) is Object by {
            assert(b[j] == a[j]);
        }
        lemma_rows_are_counted(b);
        assert forall|i: int| 0 <= i < all.len() implies row_is_counted(
            a,
            #[trigger] all[i],
        ) by {
            assert(record::field(x, "name"@, 0) == x.get("name"@));
            if i < t.len() && all[i] == t[i] {
                assert(row_is_counted(b, t[i]));
                lemma_row_stays(b, a, t[i]);
            } else {
                let (name, n) = counter_of(x)->0;
                let p = text::pieces(name, ">>>"@);
                if x.get("name"@) is None {
                    lemma_empty_has_one_piece();
                    assert(p.len() == 1);
                }
                assert(x.get("name"@) == Some(JsonV::Str(name)));
                lemma_place(t, p[1], 0);
                assert(counts_user(a[last], p[1]));
                let old = match place(t, p[1], 0) {
                    Some(m) => t[m],
                    None => (p[1], 0nat, 0nat),
                };
                assert(all[i] == with_direction(old, p[3], n));
                if place(t, p[1], 0) is Some {
                    assert(row_is_counted(b, old));
                    lemma_row_stays(b, a, old);
                }
                if forall|k: int|
                    0 <= k < a.len() ==> !counts_for(#[trigger] a[k], p[1], "uplink"@) {
                    assert(!counts_for(a[last], p[1], "uplink"@));
                    assert(all[i].1 == old.1);
                }
                if forall|k: int|
                    0 <= k < a.len() ==> !counts_for(#[trigger] a[k], p[1], "downlink"@) {
                    assert(!counts_for(a[last], p[1], "downlink"@));
                    assert(all[i].2 == old.2);
                }
            }
        }
    }
}

/// **Nothing is counted of nobody.** Every user that is listed has a counter in the answer, and has
/// nothing in a direction for which there is none.
pub proof fn law_only_counted_users_are_listed(
    parsed: Option<Json>,
    r: Vec<(String, u64, u64)>,
    a: Seq<JsonV>,
    i: int,
)
    requires
        call_ensures(bridge_stats_from, (&parsed,), r),
        parsed is Some,
        parsed->0@ is Object,
        parsed->0@.get("stat"@) == Some(JsonV::Array(a)),
        forall|j: int| 0 <= j < a.len() ==> (#[trigger] a[j]) is Object,
        0 <= i < r@.len(),
    ensures
        exists|k: int| 0 <= k < a.len() && counts_user(#[trigger] a[k], r@[i].0@),
        (forall|k: int| 0 <= k < a.len() ==> !counts_for(#[trigger] a[k], r@[i].0@, "uplink"@))
            ==> r@[i].1 == 0,
        (forall|k: int| 0 <= k < a.len() ==> !counts_for(#[trigger] a[k], r@[i].0@, "downlink"@))
            ==> r@[i].2 == 0,
{
    assert(record::field(parsed->0@, "stat"@, 0) == parsed->0@.get("stat"@));
    assert(traffic_views(r@).len() == r@.len());
    assert(traffic_views(r@)[i] == (r@[i].0@, r@[i].1 as nat, r@[i].2 as nat));
    lemma_rows_are_counted(a);
    assert(row_is_counted(a, traffic_in(a)[i]));
}

/// **An answer that is none gives nothing**: no JSON, no list, or a list with something else in it.
pub proof fn law_unreadable_answers_give_nothing(
    parsed: Option<Json>,
    t: Vec<(String, u64, u64)>,
    c: Vec<(String, u32)>,
    k: int,
)
    requires
        call_ensures(bridge_stats_from, (&parsed,), t),
        call_ensures(bridge_online_from, (&parsed,), c),
    ensures
        parsed is None ==> t@.len() == 0 && c@.len() == 0,
        parsed is Some && parsed->0@ is Str ==> t@.len() == 0 && c@.len() == 0,
        parsed is Some && parsed->0@ is Object && (parsed->0@.get("stat"@) matches Some(x) && !(x
            is Array)) ==> t@.len() == 0,
        parsed is Some && parsed->0@ is Object && (parsed->0@.get("users"@) matches Some(x) && !(x
            is Array)) ==> c@.len() == 0,
        parsed is Some && parsed->0@ is Object && (parsed->0@.get("stat"@) matches Some(
            JsonV::Array(a),
        ) && 0 <= k < a.len() && a[k] is Str) ==> t@.len() == 0,
        parsed is Some && parsed->0@ is Object && (parsed->0@.get("users"@) matches Some(
            JsonV::Array(a),
        ) && 0 <= k < a.len() && a[k] is Str) ==> c@.len() == 0,
{
    assert(traffic_views(t@).len() == t@.len());
    assert(connection_views(c@).len() == c@.len());
    if let Some(j) = parsed {
        assert(record::field(j@, "stat"@, 0) == j@.get("stat"@) || j@ is Array);
        assert(record::field(j@, "users"@, 0) == j@.get("users"@) || j@ is Array);
        if let Some(JsonV::Array(a)) = j@.get("stat"@) {
            if 0 <= k < a.len() && a[k] is Str {
                assert(counter_of(a[k]) is None);
            }
        }
        if let Some(JsonV::Array(a)) = j@.get("users"@) {
            if 0 <= k < a.len() && a[k] is Str {
                assert(connections_of(a[k]) is None);
            }
        }
    }
}

/// The member is a number, or missing.
pub open spec fn number_or_none(j: JsonV, k: Seq<char>) -> bool {
    match j.get(k) {
        Some(x) => x is UInt,
        None => true,
    }
}

/// **Metrics are read where each member is of its kind**, and refused where one is not.
pub proof fn law_metrics_are_read(j: Json, r: Option<BridgeSysinfo>)
    requires
        call_ensures(BridgeSysinfo::from_json, (&j,), r),
        j@ is Object,
    ensures
        (match j@.get("load_1min"@) {
            Some(x) => x is Str,
            None => true,
        }) && number_or_none(j@, "mem_used_mb"@) && number_or_none(j@, "mem_total_mb"@)
            && number_or_none(j@, "disk_used_gb"@) && number_or_none(j@, "disk_total_gb"@)
            && number_or_none(j@, "uptime_secs"@) ==> r is Some,
        (j@.get("load_1min"@) matches Some(x) && !(x is Str)) ==> r is None,
        (j@.get("mem_used_mb"@) matches Some(x) && x is Str) ==> r is None,
        (j@.get("uptime_secs"@) matches Some(x) && x is Str) ==> r is None,
{
}

/// **Metrics are read from the text as from its JSON**, and what is wrong with it is told.
pub proof fn law_metrics_of_the_text(
    text: &str,
    j: Json,
    x: Option<BridgeSysinfo>,
    r: Result<BridgeSysinfo, String>,
)
    requires
        call_ensures(parse_sysinfo, (text,), r),
        call_ensures(BridgeSysinfo::from_json, (&j,), x),
    ensures
        codec::json_of_text(text@) == Ok::<JsonV, Seq<char>>(j@) ==> (x is Some == r is Ok) && (x
            is Some ==> x->0.load_1min@ == r->Ok_0.load_1min@ && x->0.mem_used_mb
            == r->Ok_0.mem_used_mb && x->0.mem_total_mb == r->Ok_0.mem_total_mb
            && x->0.disk_used_gb == r->Ok_0.disk_used_gb && x->0.disk_total_gb
            == r->Ok_0.disk_total_gb && x->0.uptime_secs == r->Ok_0.uptime_secs) && (x is None
            ==> r->Err_0@ == "parse sysinfo: not metrics of a host"@),
        codec::json_of_text(text@) matches Err(e) ==> (r matches Err(m) && m@ == "parse sysinfo: "@
            + e),
{
}

} // verus!
