//! What holds of the agent's requests and responses over all inputs.

use crate::bridge_client::BridgeClient;
use crate::bridge_config::{add_client, remove_client, user_emails, Edit};
use crate::decimal;
use crate::http_agent;
use crate::http_agent::{
    body_len, header, logged_action, parse_request_line, persist, route, route_from, status_text,
    statsonline_from, strip_prefixes, to_lower, Change, Exchange, Header, Outcome, Response, Route,
    Task,
};
use crate::json::codec;
use crate::json::{Json, JsonV};
use crate::text;
use vstd::prelude::*;

verus! {

// ---- requests ----

proof fn lemma_action(secret: Seq<char>, action: Seq<char>)
    ensures
        text::after_prefix("/"@ + secret + action, "/"@ + secret) == Some(action),
{
    let p = "/"@ + secret;
    let s = p + action;
    assert(p.is_prefix_of(s)) by {
        assert(s.subrange(0, p.len() as int) =~= p);
    }
    assert(s.skip(p.len() as int) =~= action);
}

proof fn lemma_path(secret: Seq<char>, path: Seq<char>)
    requires
        text::after_prefix(path, "/"@ + secret) is Some,
    ensures
        path == "/"@ + secret + text::after_prefix(path, "/"@ + secret)->0,
{
    let p = "/"@ + secret;
    assert(path =~= p + path.skip(p.len() as int));
}

/// **Each path asks for its own work.** The configuration, the traffic and the connections are asked
/// for by a `GET` of `/backup`, `/stats` and `/online` behind the secret, and by nothing else; the
/// configuration is replaced by a `POST` of JSON to `/restore` behind the secret, and by nothing
/// else.
pub proof fn law_paths_are_told_apart(
    secret: &str,
    method: &str,
    path: &str,
    body: &str,
    valid: bool,
    r: Route,
)
    requires
        call_ensures(route_from, (secret, method, path, body, valid), r),
    ensures
        r is Backup <==> method@ == "GET"@ && path@ == "/"@ + secret@ + "/backup"@,
        r is Stats <==> method@ == "GET"@ && path@ == "/"@ + secret@ + "/stats"@,
        r is Online <==> method@ == "GET"@ && path@ == "/"@ + secret@ + "/online"@,
        r is Restore <==> method@ == "POST"@ && path@ == "/"@ + secret@ + "/restore"@ && body@.len()
            > 0 && valid,
        r matches Route::Restore(b) ==> b@ == body@,
        method@ == "GET"@ && path@ == "/"@ + secret@ + "/health"@ ==> (r matches Route::Respond(x)
            && x.status == 200 && x.json && x.body@ == "{\"ok\":true}"@),
        r matches Route::Respond(x) ==> x.status == 200 || x.status == 400 || x.status == 404,
        (r matches Route::Respond(x) && x.status == 200) ==> method@ == "GET"@ && path@ == "/"@
            + secret@ + "/health"@,
        r is AddUser || r is DelUser ==> method@ == "POST"@,
{
    reveal_strlit("GET");
    reveal_strlit("POST");
    reveal_strlit("/health");
    reveal_strlit("/backup");
    reveal_strlit("/stats");
    reveal_strlit("/online");
    reveal_strlit("/restore");
    reveal_strlit("/add-user/");
    reveal_strlit("/del-user/");
    assert("GET"@.len() == 3 && "POST"@.len() == 4);
    assert("/health"@[1] == 'h' && "/backup"@[1] == 'b' && "/stats"@[1] == 's' && "/online"@[1]
        == 'o' && "/restore"@[1] == 'r');
    lemma_action(secret@, "/health"@);
    lemma_action(secret@, "/backup"@);
    lemma_action(secret@, "/stats"@);
    lemma_action(secret@, "/online"@);
    lemma_action(secret@, "/restore"@);
    if text::after_prefix(path@, "/"@ + secret@) is Some {
        lemma_path(secret@, path@);
    }
}

proof fn lemma_no_prefix(s: Seq<char>, p: Seq<char>)
    requires
        s.len() == 0 || s[0] != '/',
        p.len() > 0,
        p[0] == '/',
    ensures
        http_agent::drop_prefixes(s, p) == s,
{
    if p.is_prefix_of(s) {
        assert(s[0] == p[0]);
    }
}

proof fn lemma_parted(uuid: Seq<char>, email: Seq<char>)
    requires
        !uuid.contains('/'),
    ensures
        text::find(uuid + "/"@ + email, seq!['/']) == Some(uuid.len() as int),
        (uuid + "/"@ + email).take(uuid.len() as int) == uuid,
        (uuid + "/"@ + email).skip(uuid.len() + 1int) == email,
{
    reveal_strlit("/");
    let rest = uuid + "/"@ + email;
    text::lemma_find_from(rest, seq!['/'], 0);
    let n = uuid.len() as int;
    assert(rest.subrange(n, n + 1) =~= seq!['/']);
    assert(text::matches_at(rest, seq!['/'], n));
    let i = text::find(rest, seq!['/'])->0;
    if i < n {
        assert(rest.subrange(i, i + 1)[0] == '/');
        assert(uuid[i] == '/');
        assert(uuid.contains('/'));
    }
    assert(rest.take(n) =~= uuid);
    assert(rest.skip(n + 1) =~= email);
}

proof fn lemma_add_route(uuid: Seq<char>, email: Seq<char>, body: Seq<char>, valid: bool)
    requires
        uuid.len() > 0,
        !uuid.contains('/'),
    ensures
        http_agent::post_route("/add-user/"@ + uuid + "/"@ + email, body, valid)
            == http_agent::RouteV::AddUser(uuid, email),
{
    let p = "/add-user/"@;
    let rest = uuid + "/"@ + email;
    let add = p + uuid + "/"@ + email;
    reveal_strlit("/restore");
    reveal_strlit("/add-user/");
    assert(add =~= p + rest);
    assert(add[1] == 'a' && "/restore"@[1] == 'r');
    assert(p.is_prefix_of(add)) by {
        assert(add.subrange(0, p.len() as int) =~= p);
    }
    assert(add.skip(p.len() as int) =~= rest);
    assert(rest[0] == uuid[0]);
    assert(uuid.contains(uuid[0]));
    lemma_no_prefix(rest, p);
    assert(http_agent::drop_prefixes(add, p) == rest);
    lemma_parted(uuid, email);
}

proof fn lemma_del_route(email: Seq<char>, body: Seq<char>, valid: bool)
    requires
        email.len() == 0 || email[0] != '/',
    ensures
        http_agent::post_route("/del-user/"@ + email, body, valid)
            == http_agent::RouteV::DelUser(email),
{
    let p = "/add-user/"@;
    let q = "/del-user/"@;
    let del = q + email;
    reveal_strlit("/restore");
    reveal_strlit("/add-user/");
    reveal_strlit("/del-user/");
    assert(del[1] == 'd' && "/restore"@[1] == 'r');
    assert(q.is_prefix_of(del)) by {
        assert(del.subrange(0, q.len() as int) =~= q);
    }
    assert(!p.is_prefix_of(del)) by {
        if p.is_prefix_of(del) {
            assert(del[1] == p[1]);
        }
    }
    assert(del.skip(q.len() as int) =~= email);
    lemma_no_prefix(email, q);
    assert(http_agent::drop_prefixes(del, q) == email);
}

/// **The agent does what the client asks for.** A user that the client asks to add is added under
/// the same id and email, and one that it asks to remove is removed by the same email. The id holds
/// no slash and is not empty, and neither does the email begin with one where it stands alone.
pub proof fn law_agent_understands_the_client(
    secret: &str,
    uuid: &str,
    email: &str,
    add: String,
    del: String,
    add_path: &str,
    del_path: &str,
    body: &str,
    valid: bool,
    a: Route,
    d: Route,
)
    requires
        call_ensures(BridgeClient::add_user_path, (uuid, email), add),
        call_ensures(BridgeClient::del_user_path, (email,), del),
        add_path@ == "/"@ + secret@ + add@,
        del_path@ == "/"@ + secret@ + del@,
        uuid@.len() > 0,
        !uuid@.contains('/'),
        email@.len() == 0 || email@[0] != '/',
        call_ensures(route_from, (secret, "POST", add_path, body, valid), a),
        call_ensures(route_from, (secret, "POST", del_path, body, valid), d),
    ensures
        a matches Route::AddUser { uuid: u, email: e } && u@ == uuid@ && e@ == email@,
        d matches Route::DelUser { email: e } && e@ == email@,
{
    reveal_strlit("GET");
    reveal_strlit("POST");
    assert("GET"@.len() == 3 && "POST"@.len() == 4);
    lemma_action(secret@, add@);
    lemma_action(secret@, del@);
    lemma_add_route(uuid@, email@, body@, valid);
    lemma_del_route(email@, body@, valid);
}

/// **A body is valid where it is JSON**, and a request is otherwise understood as with that known.
pub proof fn law_body_is_checked(
    secret: &str,
    method: &str,
    path: &str,
    body: &str,
    r: Route,
    q: Route,
)
    requires
        call_ensures(route, (secret, method, path, body), r),
        call_ensures(
            route_from,
            (secret, method, path, body, codec::json_of_text(body@) is Ok),
            q,
        ),
    ensures
        r@ == q@,
{
}

/// **The length of a body is what its header says**: a line that is `content-length:` in whatever
/// case, and then a number in decimal, gives that number; an empty line ends the headers, and any
/// other line changes nothing.
pub proof fn law_header_gives_the_length(
    known: usize,
    line: &str,
    r: Header,
    rest: Seq<char>,
    n: usize,
)
    requires
        call_ensures(header, (known, line), r),
    ensures
        text::trimmed(line@).len() == 0 ==> r == Header::End,
        text::trimmed(line@).len() > 0 ==> r is More,
        http_agent::lowered(text::trimmed(line@)) == "content-length:"@ + rest && text::trimmed(
            rest,
        ) == decimal::dec(n as nat) ==> r == Header::More(n),
        text::trimmed(line@).len() > 0 && !"content-length:"@.is_prefix_of(
            http_agent::lowered(text::trimmed(line@)),
        ) ==> r == Header::More(known),
{
    let l = http_agent::lowered(text::trimmed(line@));
    let p = "content-length:"@;
    reveal_strlit("content-length:");
    if l == p + rest && text::trimmed(rest) == decimal::dec(n as nat) {
        assert(p.is_prefix_of(l)) by {
            assert(l.subrange(0, p.len() as int) =~= p);
        }
        assert(l.skip(p.len() as int) =~= rest);
        decimal::law_dec_reads_back(n as nat, usize::MAX as nat);
        assert(l.len() > 0);
    }
}

/// **Only the body of a `POST` is read, and no more than 1048576 bytes of it.**
pub proof fn law_body_is_limited(method: &str, n: usize, r: usize)
    requires
        call_ensures(body_len, (method, n), r),
    ensures
        method@ != "POST"@ ==> r == 0,
        method@ == "POST"@ ==> r == (if n <= 1048576 {
            n
        } else {
            1048576
        }),
{
}

/// **A request line gives its first two words**: with a method and a path without blanks, and one
/// blank between them and behind, it gives these two.
pub proof fn law_request_line_gives_method_and_path(line: &str, r: Option<(String, String)>)
    requires
        call_ensures(parse_request_line, (line,), r),
    ensures
        match r {
            Some(p) => text::words(line@).len() >= 2 && p.0@ == text::words(line@)[0] && p.1@
                == text::words(line@)[1],
            None => text::words(line@).len() < 2,
        },
{
}

// ---- responses ----

/// **A response states its status and its length, and ends in its body**: the length is the number
/// of bytes of the body, and JSON is called JSON.
pub proof fn law_response_states_status_and_length(x: Response, r: String)
    requires
        call_ensures(Response::to_text, (&x,), r),
    ensures
        r@ == "HTTP/1.1 "@ + decimal::dec(x.status as nat) + " "@ + (if x.status == 200 {
            "OK"@
        } else if x.status == 400 {
            "Bad Request"@
        } else if x.status == 404 {
            "Not Found"@
        } else if x.status == 500 {
            "Internal Server Error"@
        } else {
            "Unknown"@
        }) + (if x.json {
            "\r\nContent-Type: application/json\r\nContent-Length: "@
        } else {
            "\r\nContent-Length: "@
        }) + decimal::dec(vstd::utf8::encode_utf8(x.body@).len()) + "\r\nConnection: close\r\n\r\n"@
            + x.body@,
{
}

// ---- work ----

/// **The running bridge is asked for the right user.** A user is added by a call that names its id
/// and its email, and removed by a call that names its email; the connections are asked for by the
/// email of the user whose number is the next one missing.
pub proof fn law_bridge_is_asked_for_the_right_user(x: Exchange, t: Option<Task>)
    requires
        x.wf(),
        call_ensures(Exchange::task, (&x,), t),
    ensures
        match x {
            Exchange::OnlineAsk { container, emails, counts } => t matches Some(Task::Docker(v))
                && text::texts(v@) == seq![
                "exec"@,
                container@,
                "xray"@,
                "api"@,
                "statsonline"@,
                "-s"@,
                "127.0.0.1:8080"@,
                "-email"@,
                emails@[counts@.len() as int]@,
            ],
            Exchange::Change { container, change: Change::Add { uuid, email } } => t matches Some(
                Task::Docker(v),
            ) && text::texts(v@) == seq![
                "exec"@,
                "-i"@,
                container@,
                "sh"@,
                "-c"@,
                "echo '"@ + ("{\"inboundTag\":\"client-in\",\"user\":{\"email\":\""@ + email@
                    + "\",\"level\":0,\"account\":{\"id\":\""@ + uuid@
                    + "\",\"encryption\":\"none\"}}}"@) + "' | xray api adu -s 127.0.0.1:8080"@,
            ],
            Exchange::Change { container, change: Change::Del { email } } => t matches Some(
                Task::Docker(v),
            ) && text::texts(v@) == seq![
                "exec"@,
                container@,
                "xray"@,
                "api"@,
                "rmu"@,
                "-s"@,
                "127.0.0.1:8080"@,
                "-tag=client-in"@,
                email@,
            ],
            Exchange::RestoreWrite { config, .. } => t matches Some(Task::WriteTemp(c)) && c@
                == config@,
            Exchange::RestoreRestart { container } => t matches Some(Task::Docker(v))
                && text::texts(v@) == seq!["restart"@, container@],
            Exchange::PersistWrite { config } => t matches Some(Task::WriteConfig(c)) && c@
                == config@,
            Exchange::Stats { container } => t matches Some(Task::Docker(v)) && text::texts(v@)
                == seq![
                "exec"@,
                container@,
                "xray"@,
                "api"@,
                "statsquery"@,
                "-s"@,
                "127.0.0.1:8080"@,
                "-pattern"@,
                "user>>>"@,
            ],
            Exchange::Finished { .. } => t is None,
            Exchange::RestoreMove { .. } => t matches Some(Task::MoveTemp),
            _ => t matches Some(Task::ReadConfig),
        },
{
}

/// **Connections are counted as the server states them**: where the answer is JSON whose `stat.value`
/// is a 32-bit number the count is that number, and zero where it states none.
pub proof fn law_bridge_connections_are_the_value(parsed: Option<Json>, r: u32)
    requires
        call_ensures(statsonline_from, (&parsed,), r),
    ensures
        match parsed {
            Some(j) => match j@.get("stat"@) {
                Some(s) => match s.get("value"@) {
                    Some(JsonV::UInt(n)) => (n <= u32::MAX ==> r == n) && (n <= i64::MAX ==> r == n
                        % 0x1_0000_0000) && (n > i64::MAX ==> r == 0),
                    Some(JsonV::NegInt(n)) => n <= 0 ==> r == 0,
                    _ => r == 0,
                },
                None => r == 0,
            },
            None => r == 0,
        },
{
}

/// **Every user is answered for with its own count.** When the last user was asked for, the response
/// lists each email with the count that was got for it, in order; before, the count is kept behind
/// those before it.
pub proof fn law_counts_stay_with_their_users(
    container: String,
    emails: Vec<String>,
    counts: Vec<u32>,
    o: Outcome,
    n: u32,
    r: Exchange,
    output: &str,
)
    requires
        counts@.len() < emails@.len(),
        o matches Outcome::Docker(Ok(x)) && x.stdout_is_utf8 && x.stdout@ == output@,
        call_ensures(http_agent::parse_statsonline, (output,), n),
        call_ensures(
            Exchange::next,
            (Exchange::OnlineAsk { container, emails, counts }, o),
            r,
        ),
    ensures
        counts@.len() + 1 < emails@.len() ==> (r matches Exchange::OnlineAsk {
            container: c,
            emails: es,
            counts: ns,
        } && c@ == container@ && es == emails && ns@ == counts@.push(n)),
        counts@.len() + 1 == emails@.len() ==> (r matches Exchange::Finished {
            response,
            warning,
        } && response.status == 200 && response.json && warning is None && response.body@
            == "{\"users\":["@ + text::joined(
            Seq::new(
                emails@.len(),
                |i: int|
                    "{\"email\":\""@ + emails@[i]@ + "\",\"online\":"@ + decimal::dec(
                        counts@.push(n)[i] as nat,
                    ) + "}"@,
            ),
            ","@,
        ) + "]}"@),
{
    let es = text::texts(emails@);
    let ns = counts@.push(n);
    assert(Seq::new(es.len(), |i: int| http_agent::online_entry(es[i], ns[i])) =~= Seq::new(
        emails@.len(),
        |i: int|
            "{\"email\":\""@ + emails@[i]@ + "\",\"online\":"@ + decimal::dec(ns[i] as nat) + "}"@,
    ));
}

/// **What is kept on disk is what was changed**: the document that is written for a new user is that
/// of adding its client, and the one for a user that is gone is that of removing its clients;
/// nothing is written where that changes nothing.
pub proof fn law_disk_follows_the_change(
    uuid: String,
    email: String,
    config: Json,
    id: &str,
    e: &str,
    added: Edit,
    removed: Edit,
    a: Result<Option<String>, String>,
    d: Result<Option<String>, String>,
)
    requires
        id@ == uuid@,
        e@ == email@,
        call_ensures(add_client, (config, id, e), added),
        call_ensures(remove_client, (config, e), removed),
        call_ensures(persist, (&Change::Add { uuid, email }, Ok(config)), a),
        call_ensures(persist, (&Change::Del { email }, Ok(config)), d),
    ensures
        match added {
            Edit::Write(c) => a matches Ok(Some(t)) && t@ == codec::pretty_text(c@),
            Edit::Unchanged => a matches Ok(None),
            Edit::Fault(m) => a matches Err(x) && x@ == m@,
        },
        match removed {
            Edit::Write(c) => d matches Ok(Some(t)) && t@ == codec::pretty_text(c@),
            Edit::Unchanged => d matches Ok(None),
            Edit::Fault(m) => d matches Err(x) && x@ == m@,
        },
{
}

/// **A request is worked on as it was understood**: with its own id, email and body, for the
/// container that the agent serves.
pub proof fn law_work_is_for_the_request(q: Route, container: &str, r: Exchange)
    requires
        call_ensures(Exchange::begin, (q, container), r),
    ensures
        match q {
            Route::Respond(x) => r matches Exchange::Finished { response, warning } && response@
                == x@ && warning is None,
            Route::Backup => r is Backup,
            Route::Restore(b) => r matches Exchange::RestoreWrite { container: c, config } && c@
                == container@ && config@ == b@,
            Route::Stats => r matches Exchange::Stats { container: c } && c@ == container@,
            Route::Online => r matches Exchange::OnlineRead { container: c } && c@ == container@,
            Route::AddUser { uuid, email } => r matches Exchange::Change {
                container: c,
                change: Change::Add { uuid: u, email: e },
            } && c@ == container@ && u@ == uuid@ && e@ == email@,
            Route::DelUser { email } => r matches Exchange::Change {
                container: c,
                change: Change::Del { email: e },
            } && c@ == container@ && e@ == email@,
        },
{
}

/// **A response tells what came of the request.** The configuration and the traffic are handed out
/// as they were read; a failure is answered by the status 500; a change that the running bridge
/// accepted is a success, whatever comes of keeping it on disk.
pub proof fn law_response_tells_what_came_of_it(s: Exchange, o: Outcome, r: Exchange)
    requires
        s.wf(),
        http_agent::comes_of(s.asks(), o),
        call_ensures(Exchange::next, (s, o), r),
    ensures
        r matches Exchange::Finished { response, .. } ==> match (s, o) {
            (Exchange::Backup, Outcome::Read(Ok(t))) => response.status == 200 && response.body@
                == t@,
            (Exchange::Stats { .. }, Outcome::Docker(Ok(x))) => response.status == 200
                && response.body@ == x.stdout@,
            (Exchange::RestoreRestart { .. }, Outcome::Docker(Ok(x))) => response.status == (
            if x.success {
                200u16
            } else {
                500u16
            }),
            (Exchange::Change { .. }, Outcome::Docker(Ok(x))) => !x.success && response.status
                == 500,
            (Exchange::PersistRead { .. }, _) => response.status == 200,
            (Exchange::PersistWrite { .. }, _) => response.status == 200,
            (Exchange::OnlineRead { .. }, _) => response.status == 200,
            (Exchange::OnlineAsk { .. }, _) => response.status == 200,
            _ => response.status == 500,
        },
{
}

// ---- texts and responses ----

/// **Only letters from `A` to `Z` are made lower-case**, each to its own.
pub proof fn law_letters_are_made_lower_case(s: &str, i: int, r: String)
    requires
        call_ensures(to_lower, (s,), r),
    ensures
        r@.len() == s@.len(),
        0 <= i < s@.len() && 'A' <= s@[i] <= 'Z' ==> r@[i] as u32 == s@[i] as u32 + 32,
        0 <= i < s@.len() && !('A' <= s@[i] <= 'Z') ==> r@[i] == s@[i],
{
}

/// **A response has the status and the body that it was made with**; a success is told as JSON with
/// 200, and a failure with 500 and its message.
pub proof fn law_responses_are_as_made(
    status: u16,
    body: &str,
    plain: Response,
    json: Response,
    ok: Response,
    failed: Response,
)
    requires
        call_ensures(Response::plain, (status, body), plain),
        call_ensures(Response::json, (status, body), json),
        call_ensures(Response::success, (), ok),
        call_ensures(Response::failure, (body,), failed),
    ensures
        plain.status == status && !plain.json && plain.body@ == body@,
        json.status == status && json.json && json.body@ == body@,
        ok.status == 200 && ok.json && ok.body@ == "{\"ok\":true}"@,
        failed.status == 500 && failed.json && failed.body@ == "{\"error\":\""@ + body@ + "\"}"@,
{
    assert(plain@.body == plain.body@ && json@.body == json.body@ && ok@.body == ok.body@
        && failed@.body == failed.body@);
}

/// **A status is named as HTTP names it.**
pub proof fn law_status_is_named(code: u16, r: &'static str)
    requires
        call_ensures(status_text, (code,), r),
    ensures
        code == 200 ==> r@ == "OK"@,
        code == 400 ==> r@ == "Bad Request"@,
        code == 404 ==> r@ == "Not Found"@,
        code == 500 ==> r@ == "Internal Server Error"@,
{
}

/// **The log never holds the secret**: of a path with it only the rest is logged, and of any other path
/// nothing.
pub proof fn law_secret_is_not_logged(secret: &str, path: &str, rest: Seq<char>, r: String)
    requires
        call_ensures(logged_action, (secret, path), r),
    ensures
        path@ == "/"@ + secret@ + rest ==> r@ == rest,
        r@ != "<unauthorized>"@ ==> path@ == "/"@ + secret@ + r@,
{
    let p = "/"@ + secret@;
    if path@ == "/"@ + secret@ + rest {
        lemma_action(secret@, rest);
    }
    if let Some(a) = text::after_prefix(path@, p) {
        assert(path@ =~= p + a);
    }
}

/// **A prefix is taken off as often as it stands there**, and no more.
pub proof fn law_prefixes_are_taken_off(
    a: &str,
    b: &str,
    p: &str,
    r: String,
    s: String,
)
    requires
        p@.len() > 0,
        call_ensures(strip_prefixes, (a, p), r),
        call_ensures(strip_prefixes, (b, p), s),
        b@ == p@ + a@,
    ensures
        s@ == r@,
        !p@.is_prefix_of(a@) ==> r@ == a@,
{
    assert(b@.take(p@.len() as int) =~= p@);
    assert(b@.skip(p@.len() as int) =~= a@);
}

// ---- refusals ----

/// **A request that is not understood is refused, and told why.** Without the secret, by another method
/// or on another path nothing is found; a configuration has to be there and to be JSON; a user is
/// added by an id and an email.
pub proof fn law_refusals_are_told(
    secret: &str,
    method: &str,
    path: &str,
    body: &str,
    valid: bool,
    rest: Seq<char>,
    r: Route,
)
    requires
        call_ensures(route_from, (secret, method, path, body, valid), r),
    ensures
        !("/"@ + secret@).is_prefix_of(path@) || (method@ != "GET"@ && method@ != "POST"@) ==> (
        r matches Route::Respond(x) && x.status == 404 && !x.json && x.body@ == "Not Found"@),
        method@ == "GET"@ && path@ == "/"@ + secret@ + rest && rest != "/health"@ && rest
            != "/backup"@ && rest != "/stats"@ && rest != "/online"@ ==> (r matches Route::Respond(x)
            && x.status == 404 && !x.json && x.body@ == "Not Found"@),
        method@ == "POST"@ && path@ == "/"@ + secret@ + rest && rest != "/restore"@
            && !"/add-user/"@.is_prefix_of(rest) && !"/del-user/"@.is_prefix_of(rest) ==> (
        r matches Route::Respond(x) && x.status == 404 && !x.json && x.body@ == "Not Found"@),
        method@ == "POST"@ && path@ == "/"@ + secret@ + "/restore"@ && body@.len() == 0 ==> (
        r matches Route::Respond(x) && x.status == 400 && x.json && x.body@
            == "{\"error\":\"empty body\"}"@),
        method@ == "POST"@ && path@ == "/"@ + secret@ + "/restore"@ && body@.len() > 0 && !valid
            ==> (r matches Route::Respond(x) && x.status == 400 && x.json && x.body@
            == "{\"error\":\"invalid JSON\"}"@),
        method@ == "POST"@ && path@ == "/"@ + secret@ + "/add-user/"@ + rest && !rest.contains('/')
            ==> (r matches Route::Respond(x) && x.status == 400 && x.json && x.body@
            == "{\"error\":\"usage: /add-user/<uuid>/<email>\"}"@),
{
    reveal_strlit("GET");
    reveal_strlit("POST");
    assert("GET"@.len() == 3 && "POST"@.len() == 4);
    lemma_action(secret@, rest);
    lemma_action(secret@, "/restore"@);
    lemma_action(secret@, "/add-user/"@ + rest);
    assert("/"@ + secret@ + "/add-user/"@ + rest =~= "/"@ + secret@ + ("/add-user/"@ + rest));
    if !rest.contains('/') {
        let p = "/add-user/"@;
        let add = p + rest;
        reveal_strlit("/restore");
        reveal_strlit("/add-user/");
        assert(add[1] == 'a' && "/restore"@[1] == 'r');
        assert(p.is_prefix_of(add)) by {
            assert(add.subrange(0, p.len() as int) =~= p);
        }
        assert(add.skip(p.len() as int) =~= rest);
        if rest.len() > 0 {
            assert(rest.contains(rest[0]));
        }
        lemma_no_prefix(rest, p);
        assert(http_agent::drop_prefixes(add, p) == rest);
        lemma_no_slash(rest, 0);
    }
}

proof fn lemma_no_slash(s: Seq<char>, i: int)
    requires
        0 <= i,
        !s.contains('/'),
    ensures
        text::find_from(s, seq!['/'], i) is None,
    decreases s.len() - i,
{
    if i < s.len() {
        assert(s.contains(s[i]));
        assert(!text::matches_at(s, seq!['/'], i)) by {
            if text::matches_at(s, seq!['/'], i) {
                assert(s.subrange(i, i + 1)[0] == s[i]);
            }
        }
        lemma_no_slash(s, i + 1);
    }
}

// ---- steps ----

/// The exchange is over with that status, with JSON that is that text, and with that warning.
pub open spec fn over(x: Exchange, status: u16, body: Seq<char>, warning: Option<Seq<char>>) -> bool {
    x matches Exchange::Finished { response, warning: w } && response.status == status
        && response.json && response.body@ == body && match (w, warning) {
        (Some(a), Some(b)) => a@ == b,
        (None, None) => true,
        _ => false,
    }
}

/// The text of a failure with that message.
pub open spec fn told(m: Seq<char>) -> Seq<char> {
    "{\"error\":\""@ + m + "\"}"@
}

/// **The work on a request goes on in its order.** A configuration is written, moved to its place, and
/// the bridge is started again; a change is kept on disk only once the running bridge has it; a step
/// that fails ends the work and is told by its message.
pub proof fn law_work_goes_on_in_order(s: Exchange, o: Outcome, r: Exchange)
    requires
        s.wf(),
        http_agent::comes_of(s.asks(), o),
        call_ensures(Exchange::next, (s, o), r),
    ensures
        match (s, o) {
            (Exchange::Backup, Outcome::Read(Ok(t))) => over(r, 200, t@, None),
            (Exchange::Backup, Outcome::Read(Err(e))) => over(
                r,
                500,
                told("read config: "@ + e@),
                None,
            ),
            (Exchange::RestoreWrite { container, .. }, Outcome::Written(Ok(()))) => r
                matches Exchange::RestoreMove { container: c } && c@ == container@,
            (Exchange::RestoreWrite { .. }, Outcome::Written(Err(e))) => over(
                r,
                500,
                told("write temp: "@ + e@),
                None,
            ),
            (Exchange::RestoreMove { container }, Outcome::Written(Ok(()))) => r
                matches Exchange::RestoreRestart { container: c } && c@ == container@,
            (Exchange::RestoreMove { .. }, Outcome::Written(Err(e))) => over(
                r,
                500,
                told("rename: "@ + e@),
                None,
            ),
            (Exchange::RestoreRestart { .. }, Outcome::Docker(Ok(x))) => if x.success {
                over(r, 200, "{\"ok\":true}"@, None)
            } else {
                over(r, 500, told("docker restart failed: "@ + text::trimmed(x.stderr@)), None)
            },
            (Exchange::RestoreRestart { .. }, Outcome::Docker(Err(e))) => over(
                r,
                500,
                told("docker restart: "@ + e@),
                None,
            ),
            (Exchange::Stats { .. }, Outcome::Docker(Ok(x))) => over(r, 200, x.stdout@, None),
            (Exchange::Stats { .. }, Outcome::Docker(Err(e))) => over(r, 500, told(e@), None),
            (Exchange::Change { change, .. }, Outcome::Docker(Ok(x))) => if x.success {
                r matches Exchange::PersistRead { change: c } && c == change
            } else {
                over(r, 500, told(text::trimmed(x.stderr@)), None)
            },
            (Exchange::Change { .. }, Outcome::Docker(Err(e))) => over(r, 500, told(e@), None),
            (Exchange::PersistRead { .. }, Outcome::Read(Err(e))) => over(
                r,
                200,
                "{\"ok\":true}"@,
                Some("read config: "@ + e@),
            ),
            (Exchange::PersistWrite { .. }, Outcome::Written(Ok(()))) => over(
                r,
                200,
                "{\"ok\":true}"@,
                None,
            ),
            (Exchange::PersistWrite { .. }, Outcome::Written(Err(e))) => over(
                r,
                200,
                "{\"ok\":true}"@,
                Some("write config: "@ + e@),
            ),
            (Exchange::OnlineRead { .. }, Outcome::Read(Err(_))) => over(
                r,
                200,
                "{\"users\":["@ + Seq::<char>::empty() + "]}"@,
                None,
            ),
            _ => true,
        },
{
    if let Exchange::Finished { response, warning } = r {
        assert(response@.status == response.status && response@.json == response.json
            && response@.body == response.body@);
    }
    assert(text::joined(Seq::<Seq<char>>::empty(), ","@) =~= Seq::<char>::empty());
    assert(Seq::new(
        Seq::<Seq<char>>::empty().len(),
        |i: int| http_agent::online_entry(Seq::<Seq<char>>::empty()[i], Seq::<u32>::empty()[i]),
    ) =~= Seq::<Seq<char>>::empty());
}

/// **A change is kept as the document of the change says**: it is written, or there is nothing to
/// write, or the log is told why it cannot be kept.
pub proof fn law_change_is_kept_on_disk(
    change: Change,
    t: String,
    parsed: Result<Json, String>,
    p: Result<Option<String>, String>,
    r: Exchange,
)
    requires
        http_agent::result_view(parsed) == codec::json_of_text(t@),
        call_ensures(persist, (&change, parsed), p),
        call_ensures(
            Exchange::next,
            (Exchange::PersistRead { change }, Outcome::Read(Ok(t))),
            r,
        ),
    ensures
        match p {
            Ok(Some(c)) => r matches Exchange::PersistWrite { config } && config@ == c@,
            Ok(None) => over(r, 200, "{\"ok\":true}"@, None),
            Err(m) => over(r, 200, "{\"ok\":true}"@, Some(m@)),
        },
        parsed matches Err(m) ==> (p matches Err(e) && e@ == "parse config: "@ + m@),
{
    if let Exchange::Finished { response, warning } = r {
        assert(response@.status == response.status && response@.json == response.json
            && response@.body == response.body@);
    }
}

/// **Every user of the configuration is asked for**, and in the order of the configuration.
pub proof fn law_users_of_the_configuration_are_asked_for(
    container: String,
    t: String,
    config: Json,
    emails: Vec<String>,
    r: Exchange,
)
    requires
        codec::json_of_text(t@) == Ok::<JsonV, Seq<char>>(config@),
        call_ensures(user_emails, (&config,), emails),
        call_ensures(
            Exchange::next,
            (Exchange::OnlineRead { container }, Outcome::Read(Ok(t))),
            r,
        ),
    ensures
        emails@.len() > 0 ==> (r matches Exchange::OnlineAsk { container: c, emails: es, counts }
            && c@ == container@ && es@.len() == emails@.len() && counts@.len() == 0 && forall|i: int|
            0 <= i < es@.len() ==> (#[trigger] es@[i])@ == emails@[i]@),
        emails@.len() == 0 ==> r is Finished,
{
    assert(text::texts(emails@).len() == emails@.len());
    if let Exchange::OnlineAsk { emails: es, .. } = r {
        assert(text::texts(es@).len() == es@.len());
        assert forall|i: int| 0 <= i < es@.len() implies (#[trigger] es@[i])@ == emails@[i]@ by {
            assert(text::texts(es@)[i] == es@[i]@);
            assert(text::texts(emails@)[i] == emails@[i]@);
        }
    }
}

} // verus!
