//! What `server.json` says beside its clients: the API section, the Reality settings, the port and
//! the per-user routing rules.

use crate::json;
use crate::json::{Json, JsonV};
use crate::seqs;
use crate::seqs::retain;
use crate::text::{contains_char, same};
use crate::xray::types;
use crate::xray::types::{RealityParams, ServerConfig, XrayUser};
use vstd::prelude::*;

verus! {

broadcast use {crate::json::lemma_array_view, crate::json::lemma_object_view};

// ---- API section ----

/// The array holds that string.
pub open spec fn lists(a: Seq<JsonV>, s: Seq<char>) -> bool {
    exists|i: int| 0 <= i < a.len() && (#[trigger] a[i]).as_str() == Some(s)
}

/// The API section has the tag and the services that the client needs.
pub open spec fn api_enabled(raw: JsonV) -> bool {
    match raw.get("api"@) {
        Some(api) => {
            &&& json::str_at(api, "tag"@) == Some("api"@)
            &&& match json::array_at(api, "services"@) {
                Some(services) => lists(services, "HandlerService"@) && lists(
                    services,
                    "StatsService"@,
                ),
                None => false,
            }
        },
        None => false,
    }
}

fn array_lists(a: &Vec<Json>, s: &str) -> (r: bool)
    ensures
        r == lists(json::views(a@), s@),
{
    let mut i: usize = 0;
    while i < a.len()
        invariant
            i <= a@.len(),
            forall|j: int|
                0 <= j < i ==> (#[trigger] json::views(a@)[j]).as_str() != Some(s@),
        decreases a.len() - i,
    {
        match a[i].as_str() {
            Some(t) => {
                if same(t, s) {
                    assert(json::views(a@)[i as int].as_str() == Some(s@));
                    return true;
                }
            },
            None => {},
        }
        i += 1;
    }
    false
}

// ---- Reality ----

/// The first element of the array of that name, if it is a text that is not empty.
pub open spec fn first_text(j: JsonV, k: Seq<char>) -> Option<Seq<char>> {
    match json::array_at(j, k) {
        Some(a) => if a.len() > 0 {
            match a[0].as_str() {
                Some(s) => if s.len() > 0 {
                    Some(s)
                } else {
                    None
                },
                None => None,
            }
        } else {
            None
        },
        None => None,
    }
}

/// The server name and the short id of the main VLESS inbound.
pub open spec fn reality_of(raw: JsonV) -> Option<(Seq<char>, Seq<char>)> {
    match types::vless_inbound(raw) {
        Some(ib) => match json::get2(ib, "streamSettings"@, "realitySettings"@) {
            Some(re) => match (first_text(re, "serverNames"@), first_text(re, "shortIds"@)) {
                (Some(sni), Some(sid)) => Some((sni, sid)),
                _ => None,
            },
            None => None,
        },
        None => None,
    }
}

/// The port of the main VLESS inbound.
pub open spec fn port_of(raw: JsonV) -> Option<u16> {
    match types::vless_inbound(raw) {
        Some(ib) => match ib.get("port"@) {
            Some(p) => match p.as_u64() {
                Some(n) => if n <= 65535 {
                    Some(n as u16)
                } else {
                    None
                },
                None => None,
            },
            None => None,
        },
        None => None,
    }
}

fn first_text_of(j: &Json, key: &str) -> (r: Option<String>)
    ensures
        crate::text::opt_text(r) == first_text(j@, key@),
{
    match j.array_at(key) {
        Some(a) => if a.len() > 0 {
            match a[0].as_str() {
                Some(s) => if s.is_empty() {
                    None
                } else {
                    Some(s.to_owned())
                },
                None => None,
            }
        } else {
            None
        },
        None => None,
    }
}

impl ServerConfig {
    /// Whether the API section has the tag and the services that the client needs.
    pub fn has_api(&self) -> (r: bool)
        ensures
            r == api_enabled(self@),
    {
        match self.raw.get("api") {
            Some(api) => {
                let tagged: bool = match api.str_at("tag") {
                    Some(t) => same(t, "api"),
                    None => false,
                };
                match api.array_at("services") {
                    Some(services) => tagged && array_lists(services, "HandlerService")
                        && array_lists(services, "StatsService"),
                    None => false,
                }
            },
            None => false,
        }
    }

    /// The Reality parameters of the main VLESS inbound.
    pub fn reality_settings(&self) -> (r: Option<RealityParams>)
        ensures
            match r {
                Some(p) => reality_of(self@) == Some((p.sni@, p.short_id@)),
                None => reality_of(self@) is None,
            },
    {
        match self.find_vless_inbound() {
            Some(ib) => match ib.get("streamSettings") {
                Some(ss) => match ss.get("realitySettings") {
                    Some(re) => match (
                        first_text_of(re, "serverNames"),
                        first_text_of(re, "shortIds"),
                    ) {
                        (Some(sni), Some(short_id)) => Some(RealityParams { sni, short_id }),
                        _ => None,
                    },
                    None => None,
                },
                None => None,
            },
            None => None,
        }
    }

    /// The port of the main VLESS inbound, if it is one.
    pub fn vless_port(&self) -> (r: Option<u16>)
        ensures
            r == port_of(self@),
    {
        match self.find_vless_inbound() {
            Some(ib) => match ib.get("port") {
                Some(p) => match p.as_u64() {
                    Some(n) => if n <= 65535 {
                        Some(n as u16)
                    } else {
                        None
                    },
                    None => None,
                },
                None => None,
            },
            None => None,
        }
    }
}

// ---- routing rules ----

/// The routes that a list of users of one rule gives.
pub open spec fn user_routes(users: Seq<JsonV>, outbound: Seq<char>) -> Seq<(Seq<char>, Seq<char>)>
    decreases users.len(),
{
    if users.len() == 0 {
        Seq::empty()
    } else {
        let before = user_routes(users.drop_last(), outbound);
        match users.last().as_str() {
            Some(email) => before.push((email, outbound)),
            None => before,
        }
    }
}

/// The routes of one rule: it needs users and an outbound.
pub open spec fn rule_routes(rule: JsonV) -> Seq<(Seq<char>, Seq<char>)> {
    match (json::array_at(rule, "user"@), json::str_at(rule, "outboundTag"@)) {
        (Some(users), Some(outbound)) => user_routes(users, outbound),
        _ => Seq::empty(),
    }
}

/// The routes of a list of rules.
pub open spec fn routes_in(rules: Seq<JsonV>) -> Seq<(Seq<char>, Seq<char>)>
    decreases rules.len(),
{
    if rules.len() == 0 {
        Seq::empty()
    } else {
        routes_in(rules.drop_last()) + rule_routes(rules.last())
    }
}

/// The routing rules of a server configuration.
pub open spec fn rules_of(raw: JsonV) -> Option<Seq<JsonV>> {
    match raw.get("routing"@) {
        Some(routing) => json::array_at(routing, "rules"@),
        None => None,
    }
}

/// The per-user routes of a server configuration: an email and an outbound each.
pub open spec fn routes_of(raw: JsonV) -> Seq<(Seq<char>, Seq<char>)> {
    match rules_of(raw) {
        Some(rules) => routes_in(rules),
        None => Seq::empty(),
    }
}

/// The email that a user is routed by: an email is taken as it is.
pub open spec fn route_email(user: Seq<char>) -> Seq<char> {
    if user.contains('@') {
        user
    } else {
        types::email_of(user)
    }
}

/// The rule that sends a user's traffic to an outbound.
pub open spec fn route_rule(email: Seq<char>, outbound: Seq<char>) -> JsonV {
    JsonV::Object(
        Map::empty().insert("type"@, JsonV::Str("field"@)).insert(
            "user"@,
            JsonV::Array(seq![JsonV::Str(email)]),
        ).insert("outboundTag"@, JsonV::Str(outbound)),
    )
}

/// A rule can be added: the document and its routing section, if any, are objects.
pub open spec fn routable(raw: JsonV) -> bool {
    raw is Object && match raw.get("routing"@) {
        Some(routing) => routing is Object,
        None => true,
    }
}

/// The document with a rule added; rules that are no array stay as they are.
pub open spec fn with_rule(raw: JsonV, rule: JsonV) -> JsonV {
    let routing = match raw.get("routing"@) {
        Some(x) => x,
        None => JsonV::Object(Map::empty().insert("rules"@, JsonV::Array(Seq::empty()))),
    };
    match routing.get("rules"@) {
        Some(JsonV::Array(a)) => raw.put(
            "routing"@,
            routing.put("rules"@, JsonV::Array(a.push(rule))),
        ),
        Some(_) => raw,
        None => raw.put("routing"@, routing.put("rules"@, JsonV::Array(seq![rule]))),
    }
}

/// A rule that names that email among its users.
pub open spec fn routes_user(rule: JsonV, email: Seq<char>) -> bool {
    match json::array_at(rule, "user"@) {
        Some(users) => lists(users, email),
        None => false,
    }
}

/// The rules that do not name that email.
pub open spec fn not_for(email: Seq<char>) -> spec_fn(JsonV) -> bool {
    |rule: JsonV| !routes_user(rule, email)
}

/// The routes of a list, as text.
pub open spec fn route_views(s: Seq<(String, String)>) -> Seq<(Seq<char>, Seq<char>)> {
    Seq::new(s.len(), |i: int| (s[i].0@, s[i].1@))
}

fn push_user_routes(out: &mut Vec<(String, String)>, users: &Vec<Json>, outbound: &str)
    ensures
        route_views(final(out)@) == route_views(old(out)@) + user_routes(
            json::views(users@),
            outbound@,
        ),
{
    let ghost start = route_views(out@);
    let ghost us = json::views(users@);
    let mut i: usize = 0;
    assert(us.take(0) =~= Seq::empty());
    assert(start + user_routes(us.take(0), outbound@) =~= start);
    while i < users.len()
        invariant
            i <= users@.len(),
            us == json::views(users@),
            route_views(out@) == start + user_routes(us.take(i as int), outbound@),
        decreases users.len() - i,
    {
        let ghost before = route_views(out@);
        assert(us.take(i + 1).drop_last() =~= us.take(i as int));
        match users[i].as_str() {
            Some(email) => {
                out.push((email.to_owned(), outbound.to_owned()));
                assert(route_views(out@) =~= before.push((email@, outbound@)));
                assert(route_views(out@) =~= start + user_routes(us.take(i + 1), outbound@));
            },
            None => {},
        }
        i += 1;
    }
    assert(us.take(i as int) =~= us);
}

fn json_routes_user(rule: &Json, email: &str) -> (r: bool)
    ensures
        r == routes_user(rule@, email@),
{
    match rule.array_at("user") {
        Some(users) => array_lists(users, email),
        None => false,
    }
}

fn route_email_of(user: &str) -> (r: String)
    ensures
        r@ == route_email(user@),
{
    if contains_char(user, '@') {
        user.to_owned()
    } else {
        XrayUser::email_from_name(user)
    }
}

fn json_rule(email: &str, outbound: &str) -> (r: Json)
    ensures
        r@ == route_rule(email@, outbound@),
{
    let mut users: Vec<Json> = Vec::new();
    users.push(Json::text(email));
    assert(json::views(users@) =~= seq![JsonV::Str(email@)]);
    let mut rule = Json::Object(Vec::new());
    rule.put("type", Json::text("field"));
    rule.put("user", Json::Array(users));
    rule.put("outboundTag", Json::text(outbound));
    rule
}

impl ServerConfig {
    /// The per-user routes: an email and an outbound each. Rules without users are passed over.
    pub fn list_user_routes(&self) -> (r: Vec<(String, String)>)
        ensures
            route_views(r@) == routes_of(self@),
    {
        let mut out: Vec<(String, String)> = Vec::new();
        assert(route_views(out@) =~= Seq::empty());
        match self.raw.get("routing") {
            Some(routing) => match routing.array_at("rules") {
                Some(rules) => {
                    let ghost rs = json::views(rules@);
                    let mut i: usize = 0;
                    assert(rs.take(0) =~= Seq::empty());
                    while i < rules.len()
                        invariant
                            i <= rules@.len(),
                            rs == json::views(rules@),
                            route_views(out@) == routes_in(rs.take(i as int)),
                        decreases rules.len() - i,
                    {
                        assert(rs.take(i + 1).drop_last() =~= rs.take(i as int));
                        let ghost before = routes_in(rs.take(i as int));
                        match (rules[i].array_at("user"), rules[i].str_at("outboundTag")) {
                            (Some(users), Some(outbound)) => {
                                push_user_routes(&mut out, users, outbound);
                            },
                            _ => {
                                assert(before + Seq::<(Seq<char>, Seq<char>)>::empty() =~= before);
                            },
                        }
                        i += 1;
                    }
                    assert(rs.take(i as int) =~= rs);
                },
                None => {},
            },
            None => {},
        }
        out
    }

    /// Adds a rule that sends the user's traffic to the outbound.
    pub fn add_user_route(&mut self, user: &str, outbound: &str)
        requires
            routable(old(self)@),
        ensures
            final(self)@ == with_rule(old(self)@, route_rule(route_email(user@), outbound@)),
    {
        let ghost raw = self@;
        let email = route_email_of(user);
        let rule = json_rule(&email, outbound);
        if self.raw.get("routing").is_none() {
            let mut routing = Json::Object(Vec::new());
            let none: Vec<Json> = Vec::new();
            assert(json::views(none@) =~= Seq::empty());
            routing.put("rules", Json::Array(none));
            self.raw.put("routing", routing);
        }
        let ghost with_routing = self@;
        let ghost routing0 = with_routing.get("routing"@)->0;
        match self.raw.get_mut("routing") {
            Some(routing) => {
                if routing.get("rules").is_none() {
                    let none: Vec<Json> = Vec::new();
                    assert(json::views(none@) =~= Seq::empty());
                    routing.put("rules", Json::Array(none));
                }
                let ghost routing1 = routing@;
                match routing.get_mut("rules") {
                    Some(rules) => match rules.as_array_mut() {
                        Some(a) => {
                            let ghost before = a@;
                            a.push(rule);
                            proof {
                                assert(json::views(a@) =~= json::views(before).push(rule@));
                                let v = JsonV::Array(json::views(a@));
                                assert(raw->Object_0.insert("routing"@, routing0).insert(
                                    "routing"@,
                                    routing1.put("rules"@, v),
                                ) =~= raw->Object_0.insert("routing"@, routing1.put("rules"@, v)));
                                assert(routing0->Object_0.insert("rules"@, JsonV::Array(Seq::empty())).insert(
                                    "rules"@,
                                    v,
                                ) =~= routing0->Object_0.insert("rules"@, v));
                                assert(Seq::<JsonV>::empty().push(rule@) =~= seq![rule@]);
                            }
                        },
                        None => {
                            proof {
                                types::lemma_put_same(routing1, "rules"@);
                                types::lemma_put_same(raw, "routing"@);
                            }
                        },
                    },
                    None => {},
                }
            },
            None => {},
        }
    }

    /// Removes the rules that name the user. Tells whether there was one.
    pub fn remove_user_route(&mut self, user: &str) -> (r: bool)
        ensures
            match rules_of(old(self)@) {
                Some(rules) => {
                    &&& r == exists|i: int|
                        0 <= i < rules.len() && routes_user(
                            #[trigger] rules[i],
                            route_email(user@),
                        )
                    &&& final(self)@ == old(self)@.put(
                        "routing"@,
                        (old(self)@.get("routing"@)->0).put(
                            "rules"@,
                            JsonV::Array(rules.filter(not_for(route_email(user@)))),
                        ),
                    )
                },
                None => !r && final(self)@ == old(self)@,
            },
    {
        let email = route_email_of(user);
        let ghost raw = self@;
        match self.raw.get_mut("routing") {
            Some(routing) => {
                let ghost routing0 = routing@;
                proof {
                    types::lemma_put_same(raw, "routing"@);
                }
                match routing.get_mut("rules") {
                    Some(rules) => {
                        proof {
                            types::lemma_put_same(routing0, "rules"@);
                        }
                        match rules.as_array_mut() {
                            Some(a) => {
                                let before: usize = a.len();
                                let ghost s = a@;
                                let ghost p = |j: Json| !routes_user(j@, email@);
                                let keep = |j: &Json| -> (b: bool)
                                    ensures
                                        b == !routes_user(j@, email@),
                                    { !json_routes_user(j, &email) };
                                retain(a, keep, Ghost(p));
                                proof {
                                    types::lemma_views_filter(s, p, not_for(email@));
                                    seqs::lemma_filter_all(json::views(s), not_for(email@));
                                }
                                a.len() < before
                            },
                            None => false,
                        }
                    },
                    None => false,
                }
            },
            None => false,
        }
    }
}

// ---- laws on the members ----

/// **The API is enabled where the document says so**: `api.tag` is `api`, and `api.services` lists
/// both `HandlerService` and `StatsService`.
pub proof fn law_api_is_enabled_by_its_section(config: ServerConfig, r: bool)
    requires
        call_ensures(ServerConfig::has_api, (&config,), r),
    ensures
        r <==> match config@.get("api"@) {
            Some(api) => api.get("tag"@) == Some(JsonV::Str("api"@)) && match api.get("services"@) {
                Some(JsonV::Array(v)) => v.contains(JsonV::Str("HandlerService"@)) && v.contains(
                    JsonV::Str("StatsService"@),
                ),
                _ => false,
            },
            None => false,
        },
{
    if let Some(api) = config@.get("api"@) {
        if let Some(JsonV::Array(v)) = api.get("services"@) {
            lemma_lists(v, "HandlerService"@);
            lemma_lists(v, "StatsService"@);
        }
    }
}

proof fn lemma_lists(v: Seq<JsonV>, t: Seq<char>)
    ensures
        lists(v, t) <==> v.contains(JsonV::Str(t)),
{
    if lists(v, t) {
        let i = choose|i: int| 0 <= i < v.len() && (#[trigger] v[i]).as_str() == Some(t);
        assert(v[i] == JsonV::Str(t));
    }
    if v.contains(JsonV::Str(t)) {
        let i = choose|i: int| 0 <= i < v.len() && v[i] == JsonV::Str(t);
        assert(v[i].as_str() == Some(t));
    }
}

/// The rule sends the traffic of that email to that outbound.
pub open spec fn sends(rule: JsonV, email: Seq<char>, outbound: Seq<char>) -> bool {
    &&& rule.get("outboundTag"@) == Some(JsonV::Str(outbound))
    &&& rule.get("user"@) matches Some(JsonV::Array(users)) && users.contains(JsonV::Str(email))
}

proof fn lemma_user_routes(users: Seq<JsonV>, outbound: Seq<char>)
    ensures
        forall|e: Seq<char>, o: Seq<char>| #[trigger]
            user_routes(users, outbound).contains((e, o)) <==> o == outbound && users.contains(
                JsonV::Str(e),
            ),
    decreases users.len(),
{
    let all = user_routes(users, outbound);
    if users.len() > 0 {
        let b = users.drop_last();
        let bs = user_routes(b, outbound);
        lemma_user_routes(b, outbound);
        assert forall|e: Seq<char>, o: Seq<char>| #[trigger] all.contains((e, o)) <==> o == outbound
            && users.contains(JsonV::Str(e)) by {
            if all.contains((e, o)) {
                let k = choose|k: int| 0 <= k < all.len() && all[k] == (e, o);
                if k < bs.len() {
                    assert(bs[k] == (e, o));
                    assert(bs.contains((e, o)));
                    let j = choose|j: int| 0 <= j < b.len() && b[j] == JsonV::Str(e);
                    assert(users[j] == JsonV::Str(e));
                } else {
                    assert(users[users.len() - 1] == JsonV::Str(e));
                }
            }
            if o == outbound && users.contains(JsonV::Str(e)) {
                let j = choose|j: int| 0 <= j < users.len() && users[j] == JsonV::Str(e);
                if j < b.len() {
                    assert(b[j] == JsonV::Str(e));
                    assert(bs.contains((e, o)));
                    let k = choose|k: int| 0 <= k < bs.len() && bs[k] == (e, o);
                    assert(all[k] == (e, o));
                } else {
                    assert(all[all.len() - 1] == (e, o));
                }
            }
        }
    }
}

proof fn lemma_rule_sends(rule: JsonV, e: Seq<char>, o: Seq<char>)
    ensures
        rule_routes(rule).contains((e, o)) <==> sends(rule, e, o),
{
    match (json::array_at(rule, "user"@), json::str_at(rule, "outboundTag"@)) {
        (Some(users), Some(outbound)) => {
            lemma_user_routes(users, outbound);
        },
        _ => {},
    }
}

proof fn lemma_routes_in(rules: Seq<JsonV>, e: Seq<char>, o: Seq<char>)
    ensures
        routes_in(rules).contains((e, o)) <==> exists|i: int|
            0 <= i < rules.len() && sends(#[trigger] rules[i], e, o),
    decreases rules.len(),
{
    if rules.len() > 0 {
        let b = rules.drop_last();
        let bs = routes_in(b);
        let last = rule_routes(rules.last());
        let all = routes_in(rules);
        lemma_routes_in(b, e, o);
        lemma_rule_sends(rules.last(), e, o);
        assert(all == bs + last);
        if all.contains((e, o)) {
            let k = choose|k: int| 0 <= k < all.len() && all[k] == (e, o);
            if k < bs.len() {
                assert(bs[k] == (e, o));
                assert(bs.contains((e, o)));
                let i = choose|i: int| 0 <= i < b.len() && sends(#[trigger] b[i], e, o);
                assert(rules[i] == b[i]);
            } else {
                assert(last[k - bs.len()] == (e, o));
                assert(last.contains((e, o)));
                assert(sends(rules[rules.len() - 1], e, o));
            }
        }
        if exists|i: int| 0 <= i < rules.len() && sends(#[trigger] rules[i], e, o) {
            let i = choose|i: int| 0 <= i < rules.len() && sends(#[trigger] rules[i], e, o);
            if i < b.len() {
                assert(b[i] == rules[i]);
                assert(bs.contains((e, o)));
                let k = choose|k: int| 0 <= k < bs.len() && bs[k] == (e, o);
                assert(all[k] == (e, o));
            } else {
                assert(last.contains((e, o)));
                let k = choose|k: int| 0 <= k < last.len() && last[k] == (e, o);
                assert(all[bs.len() + k] == (e, o));
            }
        }
    }
}

/// **The routes are those of the rules**: an email and an outbound are listed exactly where a rule of
/// `routing.rules` names the email among its users and has the outbound.
pub proof fn law_routes_are_those_of_the_rules(
    config: ServerConfig,
    r: Vec<(String, String)>,
    routing: JsonV,
    rules: Seq<JsonV>,
    e: Seq<char>,
    o: Seq<char>,
)
    requires
        call_ensures(ServerConfig::list_user_routes, (&config,), r),
        config@.get("routing"@) == Some(routing),
        routing.get("rules"@) == Some(JsonV::Array(rules)),
    ensures
        (exists|k: int| 0 <= k < r@.len() && (#[trigger] r@[k]).0@ == e && r@[k].1@ == o)
            <==> exists|i: int| 0 <= i < rules.len() && sends(#[trigger] rules[i], e, o),
{
    let v = route_views(r@);
    assert(v.len() == r@.len());
    lemma_routes_in(rules, e, o);
    if exists|k: int| 0 <= k < r@.len() && (#[trigger] r@[k]).0@ == e && r@[k].1@ == o {
        let k = choose|k: int| 0 <= k < r@.len() && (#[trigger] r@[k]).0@ == e && r@[k].1@ == o;
        assert(v[k] == (e, o));
        assert(v.contains((e, o)));
    }
    if v.contains((e, o)) {
        let k = choose|k: int| 0 <= k < v.len() && v[k] == (e, o);
        assert(r@[k].0@ == e && r@[k].1@ == o);
    }
}

/// **A route that is added sends the user's traffic to the outbound**: the rule names the user's email
/// alone, which is the text itself where it holds `@`, and else the text with `@vpn` behind it.
pub proof fn law_added_rule_sends(user: Seq<char>, outbound: Seq<char>)
    ensures
        sends(
            route_rule(route_email(user), outbound),
            if user.contains('@') {
                user
            } else {
                user + "@vpn"@
            },
            outbound,
        ),
        route_rule(route_email(user), outbound).get("user"@) matches Some(JsonV::Array(users))
            && users.len() == 1,
        route_rule(route_email(user), outbound).get("type"@) == Some(JsonV::Str("field"@)),
{
    reveal_strlit("type");
    reveal_strlit("user");
    reveal_strlit("outboundTag");
    assert("user"@[0] == 'u' && "outboundTag"@[0] == 'o' && "type"@[0] == 't');
    let email = route_email(user);
    assert(seq![JsonV::Str(email)][0] == JsonV::Str(email));
    assert(seq![JsonV::Str(email)].contains(JsonV::Str(email)));
}

/// **Removing a route takes the rules that name the email, and no others**: a rule stays exactly
/// where its users, if it has any, do not hold the email.
pub proof fn law_removal_takes_the_users_rules(rule: JsonV, email: Seq<char>)
    ensures
        not_for(email)(rule) <==> match rule.get("user"@) {
            Some(JsonV::Array(users)) => !users.contains(JsonV::Str(email)),
            _ => true,
        },
{
    if let Some(JsonV::Array(users)) = rule.get("user"@) {
        lemma_lists(users, email);
    }
}

/// The rules of a document, by its members.
pub open spec fn lists_rules(raw: JsonV, rules: Seq<JsonV>) -> bool {
    raw.get("routing"@) matches Some(t) && t.get("rules"@) == Some(JsonV::Array(rules))
}

/// **A route that is added is one rule more, behind the others**, and nothing else of the document
/// changes.
pub proof fn law_added_route_is_one_rule_more(
    c: &mut ServerConfig,
    user: &str,
    outbound: &str,
    rules: Seq<JsonV>,
    k: Seq<char>,
)
    requires
        routable(old(c)@),
        call_ensures(ServerConfig::add_user_route, (c, user, outbound), ()),
        lists_rules(old(c)@, rules) || (old(c)@.get("routing"@) is None && rules.len() == 0),
    ensures
        final(c)@.get("routing"@) matches Some(t) && (t.get("rules"@) matches Some(
            JsonV::Array(after),
        ) && after.len() == rules.len() + 1 && (forall|i: int|
            0 <= i < rules.len() ==> #[trigger] after[i] == rules[i]) && sends(
            after[rules.len() as int],
            if user@.contains('@') {
                user@
            } else {
                user@ + "@vpn"@
            },
            outbound@,
        )),
        k != "routing"@ ==> final(c)@.get(k) == old(c)@.get(k),
{
    law_added_rule_sends(user@, outbound@);
}

/// **A route that is removed takes the rules that name the user**, and leaves the others in order.
pub proof fn law_removed_route_leaves_the_others(
    c: &mut ServerConfig,
    d: &mut ServerConfig,
    user: &str,
    rules: Seq<JsonV>,
    rule: JsonV,
    email: Seq<char>,
    r: bool,
    s: bool,
)
    requires
        call_ensures(ServerConfig::remove_user_route, (c, user), r),
        call_ensures(ServerConfig::remove_user_route, (d, user), s),
        lists_rules(old(c)@, rules),
        lists_rules(old(d)@, rules.push(rule)),
        email == (if user@.contains('@') {
            user@
        } else {
            user@ + "@vpn"@
        }),
    ensures
        final(c)@.get("routing"@) matches Some(t) && (t.get("rules"@) matches Some(
            JsonV::Array(left),
        ) && (rules.len() == 0 ==> left.len() == 0 && !r) && (match rule.get("user"@) {
            Some(JsonV::Array(users)) => if users.contains(JsonV::Str(email)) {
                lists_rules(final(d)@, left) && s
            } else {
                lists_rules(final(d)@, left.push(rule)) && s == r
            },
            _ => lists_rules(final(d)@, left.push(rule)) && s == r,
        })),
{
    law_removal_takes_the_users_rules(rule, email);
    seqs::lemma_filter_push(rules, rule, not_for(email));
    reveal(Seq::filter);
    let all = rules.push(rule);
    assert(rules_of(old(c)@) == Some(rules));
    assert(rules_of(old(d)@) == Some(all));
    assert(all[rules.len() as int] == rule);
    if s {
        let i = choose|i: int| 0 <= i < all.len() && routes_user(#[trigger] all[i], email);
        if i < rules.len() {
            assert(rules[i] == all[i]);
        }
    }
    if r {
        let i = choose|i: int| 0 <= i < rules.len() && routes_user(#[trigger] rules[i], email);
        assert(all[i] == rules[i]);
    }
}

} // verus!
