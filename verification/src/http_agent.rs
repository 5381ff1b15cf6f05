//! The HTTP agent of the bridge: what a request asks for, what is done about it, and the response.
//!
//! Reading the connection, running `docker` and touching the configuration file is left to the
//! caller: an exchange says what to do next and takes the result.

use crate::bridge_config;
use crate::bridge_config::{add_client, remove_client, user_emails, Edit};
use crate::decimal;
use crate::decimal::{parse_max, push_u64};
use crate::json::codec;
use crate::json::{Json, JsonV};
use crate::text;
use crate::text::{
    chars_of, join, same, starts_with, string_of, strip_prefix, trim, words_of,
};
use crate::xray::answers;
use vstd::prelude::*;

pub mod laws;

verus! {

/// The configuration of the bridge's server, mounted from the host.
pub const BRIDGE_CONFIG_PATH: &'static str = "/etc/xray-bridge/config.json";

/// The longest body that is read.
pub const MAX_BODY: usize = 1048576;

// ---- reading the request ----

/// The method and the path of a request line.
pub open spec fn request_of(line: Seq<char>) -> Option<(Seq<char>, Seq<char>)> {
    let ws = text::words(line);
    if ws.len() < 2 {
        None
    } else {
        Some((ws[0], ws[1]))
    }
}

/// The method and the path of a request line.
pub fn parse_request_line(line: &str) -> (r: Option<(String, String)>)
    ensures
        match r {
            Some(p) => request_of(line@) == Some((p.0@, p.1@)),
            None => request_of(line@) is None,
        },
{
    let ws = words_of(line);
    let ghost views = text::texts(ws@);
    if ws.len() < 2 {
        return None;
    }
    assert(views[0] == ws@[0]@ && views[1] == ws@[1]@);
    Some((ws[0].clone(), ws[1].clone()))
}

/// A character with an upper-case ASCII letter made lower-case.
pub open spec fn lower(c: char) -> char {
    if 'A' <= c <= 'Z' {
        ((c as int) + 32) as char
    } else {
        c
    }
}

/// A text with its upper-case ASCII letters made lower-case.
pub open spec fn lowered(s: Seq<char>) -> Seq<char> {
    Seq::new(s.len(), |i: int| lower(s[i]))
}

/// A text with its upper-case ASCII letters made lower-case.
pub fn to_lower(s: &str) -> (r: String)
    ensures
        r@ == lowered(s@),
{
    let v = chars_of(s);
    let mut r = String::new();
    let mut i: usize = 0;
    while i < v.len()
        invariant
            i <= v@.len(),
            r@ == lowered(v@).take(i as int),
        decreases v.len() - i,
    {
        let c = v[i];
        if 'A' <= c && c <= 'Z' {
            let b: u8 = c as u8 + 32;
            r.push(b as char);
        } else {
            r.push(c);
        }
        assert(r@ =~= lowered(v@).take(i + 1));
        i += 1;
    }
    assert(lowered(v@).take(i as int) =~= lowered(v@));
    r
}

/// The length of the body as known after a header line, given what was known before. A length that
/// cannot be read counts as zero.
pub open spec fn length_after(known: nat, line: Seq<char>) -> nat {
    match text::after_prefix(lowered(text::trimmed(line)), "content-length:"@) {
        Some(rest) => match decimal::parse_unsigned(text::trimmed(rest), usize::MAX as nat) {
            Some(n) => n,
            None => 0,
        },
        None => known,
    }
}

/// What a header line comes to.
#[derive(Debug, Clone, Copy, PartialEq, Eq, Structural)]
pub enum Header {
    /// The headers are over.
    End,
    /// There may be more; the body is as long as far as known.
    More(usize),
}

/// Takes one more header line.
pub fn header(known: usize, line: &str) -> (r: Header)
    ensures
        r == (if text::trimmed(line@).len() == 0 {
            Header::End
        } else {
            Header::More(length_after(known as nat, line@) as usize)
        }),
{
    let t = trim(line);
    if t.as_str().is_empty() {
        return Header::End;
    }
    match strip_prefix(&to_lower(&t), "content-length:") {
        Some(rest) => match parse_max(&trim(&rest), usize::MAX as u64) {
            Some(n) => Header::More(n as usize),
            None => Header::More(0),
        },
        None => Header::More(known),
    }
}

/// How much of the body is read: only that of a `POST`, and no more than the limit.
pub fn body_len(method: &str, content_length: usize) -> (r: usize)
    ensures
        r == (if method@ == "POST"@ {
            if content_length <= MAX_BODY {
                content_length
            } else {
                MAX_BODY
            }
        } else {
            0
        }),
{
    if same(method, "POST") {
        if content_length <= MAX_BODY {
            content_length
        } else {
            MAX_BODY
        }
    } else {
        0
    }
}

// ---- the response ----

/// The reason phrase of a status.
pub open spec fn phrase(code: u16) -> Seq<char> {
    if code == 200 {
        "OK"@
    } else if code == 400 {
        "Bad Request"@
    } else if code == 404 {
        "Not Found"@
    } else if code == 500 {
        "Internal Server Error"@
    } else {
        "Unknown"@
    }
}

/// The reason phrase of a status.
pub fn status_text(code: u16) -> (r: &'static str)
    ensures
        r@ == phrase(code),
{
    match code {
        200 => "OK",
        400 => "Bad Request",
        404 => "Not Found",
        500 => "Internal Server Error",
        _ => "Unknown",
    }
}

/// A response: a status and a body, which is JSON or plain text.
#[derive(Debug, Clone, PartialEq, Eq)]
pub struct Response {
    pub status: u16,
    pub json: bool,
    pub body: String,
}

/// A response as it is meant.
pub struct ResponseV {
    pub status: u16,
    pub json: bool,
    pub body: Seq<char>,
}

impl View for Response {
    type V = ResponseV;

    open spec fn view(&self) -> ResponseV {
        ResponseV { status: self.status, json: self.json, body: self.body@ }
    }
}

/// A plain response.
pub open spec fn plain(status: u16, body: Seq<char>) -> ResponseV {
    ResponseV { status, json: false, body }
}

/// A JSON response.
pub open spec fn in_json(status: u16, body: Seq<char>) -> ResponseV {
    ResponseV { status, json: true, body }
}

/// The response to a success.
pub open spec fn ok_response() -> ResponseV {
    in_json(200, "{\"ok\":true}"@)
}

/// The response to a failure.
pub open spec fn failure(message: Seq<char>) -> ResponseV {
    in_json(500, "{\"error\":\""@ + message + "\"}"@)
}

/// What is sent before the body, up to the blank line and with it.
pub open spec fn head(r: ResponseV) -> Seq<char> {
    "HTTP/1.1 "@ + decimal::dec(r.status as nat) + " "@ + phrase(r.status) + (if r.json {
        "\r\nContent-Type: application/json\r\nContent-Length: "@
    } else {
        "\r\nContent-Length: "@
    }) + decimal::dec(vstd::utf8::encode_utf8(r.body).len()) + "\r\nConnection: close\r\n\r\n"@
}

impl Response {
    pub fn plain(status: u16, body: &str) -> (r: Response)
        ensures
            r@ == plain(status, body@),
    {
        Response { status, json: false, body: body.to_owned() }
    }

    pub fn json(status: u16, body: &str) -> (r: Response)
        ensures
            r@ == in_json(status, body@),
    {
        Response { status, json: true, body: body.to_owned() }
    }

    /// The response to a success.
    pub fn success() -> (r: Response)
        ensures
            r@ == ok_response(),
    {
        Response::json(200, "{\"ok\":true}")
    }

    /// The response to a failure.
    pub fn failure(message: &str) -> (r: Response)
        ensures
            r@ == failure(message@),
    {
        let mut s = "{\"error\":\"".to_owned();
        s.append(message);
        s.append("\"}");
        Response { status: 500, json: true, body: s }
    }

    /// The response as it is sent: the head states the length of the body in bytes.
    pub fn to_text(&self) -> (r: String)
        ensures
            r@ == head(self@) + self.body@,
    {
        let mut s = "HTTP/1.1 ".to_owned();
        push_u64(&mut s, self.status as u64);
        s.append(" ");
        s.append(status_text(self.status));
        if self.json {
            s.append("\r\nContent-Type: application/json\r\nContent-Length: ");
        } else {
            s.append("\r\nContent-Length: ");
        }
        push_u64(&mut s, self.body.as_str().as_bytes().len() as u64);
        s.append("\r\nConnection: close\r\n\r\n");
        s.append(&self.body);
        s
    }
}

// ---- routing ----

/// `s` without the occurrences of `p` that it begins with.
pub open spec fn drop_prefixes(s: Seq<char>, p: Seq<char>) -> Seq<char>
    decreases s.len(),
{
    if p.len() > 0 && p.is_prefix_of(s) {
        drop_prefixes(s.skip(p.len() as int), p)
    } else {
        s
    }
}

/// `s` without the occurrences of `p` that it begins with.
pub fn strip_prefixes(s: &str, p: &str) -> (r: String)
    ensures
        r@ == drop_prefixes(s@, p@),
    decreases s@.len(),
{
    if p.is_empty() {
        return s.to_owned();
    }
    match strip_prefix(s, p) {
        Some(rest) => strip_prefixes(&rest, p),
        None => s.to_owned(),
    }
}

/// What a request asks for.
#[derive(Debug, Clone)]
pub enum Route {
    /// An answer that takes no work.
    Respond(Response),
    Backup,
    Restore(String),
    Stats,
    Online,
    AddUser { uuid: String, email: String },
    DelUser { email: String },
}

/// What a request is meant to ask for.
pub enum RouteV {
    Respond(ResponseV),
    Backup,
    Restore(Seq<char>),
    Stats,
    Online,
    AddUser(Seq<char>, Seq<char>),
    DelUser(Seq<char>),
}

impl View for Route {
    type V = RouteV;

    open spec fn view(&self) -> RouteV {
        match self {
            Route::Respond(r) => RouteV::Respond(r@),
            Route::Backup => RouteV::Backup,
            Route::Restore(b) => RouteV::Restore(b@),
            Route::Stats => RouteV::Stats,
            Route::Online => RouteV::Online,
            Route::AddUser { uuid, email } => RouteV::AddUser(uuid@, email@),
            Route::DelUser { email } => RouteV::DelUser(email@),
        }
    }
}

/// The id and the email in the path of a request to add a user: parted at the first slash.
pub open spec fn add_user_args(action: Seq<char>) -> Option<(Seq<char>, Seq<char>)> {
    let rest = drop_prefixes(action, "/add-user/"@);
    match text::find(rest, seq!['/']) {
        Some(i) => Some((rest.take(i), rest.skip(i + 1))),
        None => None,
    }
}

/// What is asked for by a `POST` of a body that may be valid JSON.
pub open spec fn post_route(action: Seq<char>, body: Seq<char>, valid: bool) -> RouteV {
    if action == "/restore"@ {
        if body.len() == 0 {
            RouteV::Respond(in_json(400, "{\"error\":\"empty body\"}"@))
        } else if !valid {
            RouteV::Respond(in_json(400, "{\"error\":\"invalid JSON\"}"@))
        } else {
            RouteV::Restore(body)
        }
    } else if "/add-user/"@.is_prefix_of(action) {
        match add_user_args(action) {
            Some((uuid, email)) => RouteV::AddUser(uuid, email),
            None => RouteV::Respond(
                in_json(400, "{\"error\":\"usage: /add-user/<uuid>/<email>\"}"@),
            ),
        }
    } else if "/del-user/"@.is_prefix_of(action) {
        RouteV::DelUser(drop_prefixes(action, "/del-user/"@))
    } else {
        RouteV::Respond(plain(404, "Not Found"@))
    }
}

/// What is asked for by an action behind the secret.
pub open spec fn action_route(
    method: Seq<char>,
    action: Seq<char>,
    body: Seq<char>,
    valid: bool,
) -> RouteV {
    if method == "GET"@ && action == "/health"@ {
        RouteV::Respond(ok_response())
    } else if method == "GET"@ && action == "/backup"@ {
        RouteV::Backup
    } else if method == "GET"@ && action == "/stats"@ {
        RouteV::Stats
    } else if method == "GET"@ && action == "/online"@ {
        RouteV::Online
    } else if method == "POST"@ {
        post_route(action, body, valid)
    } else {
        RouteV::Respond(plain(404, "Not Found"@))
    }
}

/// What a request asks for; a path that does not begin with the secret asks for nothing.
pub open spec fn route_of(
    secret: Seq<char>,
    method: Seq<char>,
    path: Seq<char>,
    body: Seq<char>,
    valid: bool,
) -> RouteV {
    match text::after_prefix(path, "/"@ + secret) {
        Some(action) => action_route(method, action, body, valid),
        None => RouteV::Respond(plain(404, "Not Found"@)),
    }
}

fn split_slash(s: &str) -> (r: Option<(String, String)>)
    ensures
        match r {
            Some(p) => text::find(s@, seq!['/']) matches Some(i) && p.0@ == s@.take(i) && p.1@
                == s@.skip(i + 1),
            None => text::find(s@, seq!['/']) is None,
        },
{
    let v = chars_of(s);
    let mut i: usize = 0;
    while i < v.len()
        invariant
            v@ == s@,
            i <= v@.len(),
            text::find(s@, seq!['/']) == text::find_from(s@, seq!['/'], i as int),
        decreases v.len() - i,
    {
        if v[i] == '/' {
            let a = string_of(&v, 0, i);
            let b = string_of(&v, i + 1, v.len());
            assert(s@.subrange(i as int, i + 1) =~= seq!['/']);
            assert(a@ =~= s@.take(i as int));
            assert(b@ =~= s@.skip(i + 1));
            return Some((a, b));
        }
        assert(s@.subrange(i as int, i + 1)[0] == s@[i as int]);
        i += 1;
    }
    None
}

fn route_post(action: &str, body: &str, valid: bool) -> (r: Route)
    ensures
        r@ == post_route(action@, body@, valid),
{
    if same(action, "/restore") {
        if body.is_empty() {
            Route::Respond(Response::json(400, "{\"error\":\"empty body\"}"))
        } else if !valid {
            Route::Respond(Response::json(400, "{\"error\":\"invalid JSON\"}"))
        } else {
            Route::Restore(body.to_owned())
        }
    } else if starts_with(action, "/add-user/") {
        match split_slash(&strip_prefixes(action, "/add-user/")) {
            Some((uuid, email)) => Route::AddUser { uuid, email },
            None => Route::Respond(
                Response::json(400, "{\"error\":\"usage: /add-user/<uuid>/<email>\"}"),
            ),
        }
    } else if starts_with(action, "/del-user/") {
        Route::DelUser { email: strip_prefixes(action, "/del-user/") }
    } else {
        Route::Respond(Response::plain(404, "Not Found"))
    }
}

/// What a request asks for, given whether its body is valid JSON.
pub fn route_from(secret: &str, method: &str, path: &str, body: &str, valid: bool) -> (r: Route)
    ensures
        r@ == route_of(secret@, method@, path@, body@, valid),
{
    let mut prefix = "/".to_owned();
    prefix.append(secret);
    match strip_prefix(path, &prefix) {
        None => Route::Respond(Response::plain(404, "Not Found")),
        Some(action) => {
            if same(method, "GET") {
                if same(&action, "/health") {
                    return Route::Respond(Response::success());
                }
                if same(&action, "/backup") {
                    return Route::Backup;
                }
                if same(&action, "/stats") {
                    return Route::Stats;
                }
                if same(&action, "/online") {
                    return Route::Online;
                }
            }
            if same(method, "POST") {
                proof {
                    reveal_strlit("GET");
                    reveal_strlit("POST");
                    assert("GET"@.len() != "POST"@.len());
                }
                route_post(&action, body, valid)
            } else {
                Route::Respond(Response::plain(404, "Not Found"))
            }
        },
    }
}

/// What a request asks for.
pub fn route(secret: &str, method: &str, path: &str, body: &str) -> (r: Route)
    ensures
        r@ == route_of(secret@, method@, path@, body@, codec::json_of_text(body@) is Ok),
{
    let valid: bool = Json::parse(body).is_ok();
    route_from(secret, method, path, body, valid)
}

/// What the log says of the path of a request: the secret is left out.
pub fn logged_action(secret: &str, path: &str) -> (r: String)
    ensures
        r@ == (match text::after_prefix(path@, "/"@ + secret@) {
            Some(a) => a,
            None => "<unauthorized>"@,
        }),
{
    let mut p = "/".to_owned();
    p.append(secret);
    match strip_prefix(path, &p) {
        Some(a) => a,
        None => "<unauthorized>".to_owned(),
    }
}

/// Without the secret at the head of its path a request is not found, whatever else it holds.
pub proof fn law_secret_is_required(
    secret: Seq<char>,
    method: Seq<char>,
    path: Seq<char>,
    body: Seq<char>,
    valid: bool,
)
    requires
        !("/"@ + secret).is_prefix_of(path),
    ensures
        route_of(secret, method, path, body, valid) == RouteV::Respond(plain(404, "Not Found"@)),
{
}

/// Nothing but a `POST` changes anything.
pub proof fn law_only_post_changes(
    secret: Seq<char>,
    method: Seq<char>,
    path: Seq<char>,
    body: Seq<char>,
    valid: bool,
)
    requires
        method != "POST"@,
    ensures
        ({
            let r = route_of(secret, method, path, body, valid);
            r is Respond || r is Backup || r is Stats || r is Online
        }),
{
}

/// Nothing but a body that is JSON replaces the configuration, and it does so as it is.
pub proof fn law_only_json_is_restored(
    secret: Seq<char>,
    method: Seq<char>,
    path: Seq<char>,
    body: Seq<char>,
    valid: bool,
)
    ensures
        route_of(secret, method, path, body, valid) matches RouteV::Restore(b) ==> valid && b == body
            && b.len() > 0,
{
}

// ---- doing the work ----

/// Something that an exchange asks for.
#[derive(Debug, Clone)]
pub enum Task {
    /// Read the bridge's configuration.
    ReadConfig,
    /// Write the bridge's configuration.
    WriteConfig(String),
    /// Write the temporary file beside the configuration.
    WriteTemp(String),
    /// Move the temporary file over the configuration.
    MoveTemp,
    /// Run `docker` with these arguments.
    Docker(Vec<String>),
}

/// What is meant to be asked for.
pub enum TaskV {
    ReadConfig,
    WriteConfig(Seq<char>),
    WriteTemp(Seq<char>),
    MoveTemp,
    Docker(Seq<Seq<char>>),
}

impl View for Task {
    type V = TaskV;

    open spec fn view(&self) -> TaskV {
        match self {
            Task::ReadConfig => TaskV::ReadConfig,
            Task::WriteConfig(t) => TaskV::WriteConfig(t@),
            Task::WriteTemp(t) => TaskV::WriteTemp(t@),
            Task::MoveTemp => TaskV::MoveTemp,
            Task::Docker(a) => TaskV::Docker(text::texts(a@)),
        }
    }
}

/// The meaning of a task that may be missing.
pub open spec fn opt_task(t: Option<Task>) -> Option<TaskV> {
    match t {
        Some(x) => Some(x@),
        None => None,
    }
}

/// What `docker` did: whether it succeeded and what it printed, with what is not UTF-8 replaced.
#[derive(Debug, Clone)]
pub struct Ran {
    pub success: bool,
    pub stdout: String,
    pub stdout_is_utf8: bool,
    pub stderr: String,
}

/// What came of a task; an error is given by its message.
#[derive(Debug)]
pub enum Outcome {
    Read(Result<String, String>),
    Written(Result<(), String>),
    Docker(Result<Ran, String>),
}

/// The outcome is of the kind that the task has.
pub open spec fn comes_of(t: Option<TaskV>, o: Outcome) -> bool {
    match (t, o) {
        (Some(TaskV::ReadConfig), Outcome::Read(_)) => true,
        (Some(TaskV::WriteConfig(_)), Outcome::Written(_)) => true,
        (Some(TaskV::WriteTemp(_)), Outcome::Written(_)) => true,
        (Some(TaskV::MoveTemp), Outcome::Written(_)) => true,
        (Some(TaskV::Docker(_)), Outcome::Docker(_)) => true,
        _ => false,
    }
}

/// A change to the bridge's clients that is to be kept on disk.
#[derive(Debug, Clone)]
pub enum Change {
    Add { uuid: String, email: String },
    Del { email: String },
}

/// The work on a request.
#[derive(Debug)]
pub enum Exchange {
    Backup,
    RestoreWrite { container: String, config: String },
    RestoreMove { container: String },
    RestoreRestart { container: String },
    Stats { container: String },
    OnlineRead { container: String },
    OnlineAsk { container: String, emails: Vec<String>, counts: Vec<u32> },
    Change { container: String, change: Change },
    PersistRead { change: Change },
    PersistWrite { config: String },
    Finished { response: Response, warning: Option<String> },
}

/// The arguments that ask for all users' traffic.
pub open spec fn stats_args(container: Seq<char>) -> Seq<Seq<char>> {
    seq![
        "exec"@,
        container,
        "xray"@,
        "api"@,
        "statsquery"@,
        "-s"@,
        "127.0.0.1:8080"@,
        "-pattern"@,
        "user>>>"@,
    ]
}

/// The arguments that ask for the number of a user's connections.
pub open spec fn online_args(container: Seq<char>, email: Seq<char>) -> Seq<Seq<char>> {
    seq![
        "exec"@,
        container,
        "xray"@,
        "api"@,
        "statsonline"@,
        "-s"@,
        "127.0.0.1:8080"@,
        "-email"@,
        email,
    ]
}

/// The JSON of the call that adds a user to the running bridge.
pub open spec fn bridge_adu_json(uuid: Seq<char>, email: Seq<char>) -> Seq<char> {
    "{\"inboundTag\":\"client-in\",\"user\":{\"email\":\""@ + email
        + "\",\"level\":0,\"account\":{\"id\":\""@ + uuid + "\",\"encryption\":\"none\"}}}"@
}

/// The arguments that add a user to the running bridge.
pub open spec fn add_args(container: Seq<char>, uuid: Seq<char>, email: Seq<char>) -> Seq<
    Seq<char>,
> {
    seq![
        "exec"@,
        "-i"@,
        container,
        "sh"@,
        "-c"@,
        "echo '"@ + bridge_adu_json(uuid, email) + "' | xray api adu -s 127.0.0.1:8080"@,
    ]
}

/// The arguments that remove a user from the running bridge.
pub open spec fn del_args(container: Seq<char>, email: Seq<char>) -> Seq<Seq<char>> {
    seq![
        "exec"@,
        container,
        "xray"@,
        "api"@,
        "rmu"@,
        "-s"@,
        "127.0.0.1:8080"@,
        "-tag=client-in"@,
        email,
    ]
}

/// The arguments that restart the bridge.
pub open spec fn restart_args(container: Seq<char>) -> Seq<Seq<char>> {
    seq!["restart"@, container]
}

/// The arguments that make a change to the running bridge.
pub open spec fn change_args(container: Seq<char>, change: Change) -> Seq<Seq<char>> {
    match change {
        Change::Add { uuid, email } => add_args(container, uuid@, email@),
        Change::Del { email } => del_args(container, email@),
    }
}

fn push_arg(v: &mut Vec<String>, s: &str)
    ensures
        text::texts(final(v)@) == text::texts(old(v)@).push(s@),
{
    let ghost before = text::texts(v@);
    v.push(s.to_owned());
    assert(text::texts(v@) =~= before.push(s@));
}

fn build_stats_args(container: &str) -> (r: Vec<String>)
    ensures
        text::texts(r@) == stats_args(container@),
{
    let mut v: Vec<String> = Vec::new();
    push_arg(&mut v, "exec");
    push_arg(&mut v, container);
    push_arg(&mut v, "xray");
    push_arg(&mut v, "api");
    push_arg(&mut v, "statsquery");
    push_arg(&mut v, "-s");
    push_arg(&mut v, "127.0.0.1:8080");
    push_arg(&mut v, "-pattern");
    push_arg(&mut v, "user>>>");
    assert(text::texts(v@) =~= stats_args(container@));
    v
}

fn build_online_args(container: &str, email: &str) -> (r: Vec<String>)
    ensures
        text::texts(r@) == online_args(container@, email@),
{
    let mut v: Vec<String> = Vec::new();
    push_arg(&mut v, "exec");
    push_arg(&mut v, container);
    push_arg(&mut v, "xray");
    push_arg(&mut v, "api");
    push_arg(&mut v, "statsonline");
    push_arg(&mut v, "-s");
    push_arg(&mut v, "127.0.0.1:8080");
    push_arg(&mut v, "-email");
    push_arg(&mut v, email);
    assert(text::texts(v@) =~= online_args(container@, email@));
    v
}

fn build_change_args(container: &str, change: &Change) -> (r: Vec<String>)
    ensures
        text::texts(r@) == change_args(container@, *change),
{
    let mut v: Vec<String> = Vec::new();
    push_arg(&mut v, "exec");
    match change {
        Change::Add { uuid, email } => {
            let mut script = "echo '".to_owned();
            let mut call = "{\"inboundTag\":\"client-in\",\"user\":{\"email\":\"".to_owned();
            call.append(email);
            call.append("\",\"level\":0,\"account\":{\"id\":\"");
            call.append(uuid);
            call.append("\",\"encryption\":\"none\"}}}");
            script.append(&call);
            script.append("' | xray api adu -s 127.0.0.1:8080");
            push_arg(&mut v, "-i");
            push_arg(&mut v, container);
            push_arg(&mut v, "sh");
            push_arg(&mut v, "-c");
            push_arg(&mut v, &script);
        },
        Change::Del { email } => {
            push_arg(&mut v, container);
            push_arg(&mut v, "xray");
            push_arg(&mut v, "api");
            push_arg(&mut v, "rmu");
            push_arg(&mut v, "-s");
            push_arg(&mut v, "127.0.0.1:8080");
            push_arg(&mut v, "-tag=client-in");
            push_arg(&mut v, email);
        },
    }
    assert(text::texts(v@) =~= change_args(container@, *change));
    v
}

fn build_restart_args(container: &str) -> (r: Vec<String>)
    ensures
        text::texts(r@) == restart_args(container@),
{
    let mut v: Vec<String> = Vec::new();
    push_arg(&mut v, "restart");
    push_arg(&mut v, container);
    assert(text::texts(v@) =~= restart_args(container@));
    v
}

/// The number of connections in an answer, given what it is as JSON; zero where it states none.
pub open spec fn statsonline(parsed: Option<JsonV>) -> int {
    match parsed {
        Some(j) => match answers::stat_member(j) {
            Some(n) => answers::not_negative(n as int) % 0x1_0000_0000,
            None => 0,
        },
        None => 0,
    }
}

/// The number of connections in an answer, given what it is as JSON.
pub fn statsonline_from(parsed: &Option<Json>) -> (r: u32)
    ensures
        r == statsonline(answers::opt_view(*parsed)),
{
    match parsed {
        Some(j) => match j.get("stat") {
            Some(s) => match s.get("value") {
                Some(v) => match v.as_i64() {
                    Some(n) => if n < 0 {
                        0
                    } else {
                        (n % 0x1_0000_0000) as u32
                    },
                    None => 0,
                },
                None => 0,
            },
            None => 0,
        },
        None => 0,
    }
}

/// Parse the number of connections in an answer.
pub fn parse_statsonline(output: &str) -> (r: u32)
    ensures
        r == statsonline(answers::as_json(output@)),
{
    match Json::parse(output) {
        Ok(j) => statsonline_from(&Some(j)),
        Err(_) => 0,
    }
}

/// One user in the answer to a request for connections.
pub open spec fn online_entry(email: Seq<char>, count: u32) -> Seq<char> {
    "{\"email\":\""@ + email + "\",\"online\":"@ + decimal::dec(count as nat) + "}"@
}

/// The answer to a request for connections.
pub open spec fn online_body(emails: Seq<Seq<char>>, counts: Seq<u32>) -> Seq<char> {
    "{\"users\":["@ + text::joined(
        Seq::new(emails.len(), |i: int| online_entry(emails[i], counts[i])),
        ","@,
    ) + "]}"@
}

fn build_online_body(emails: &Vec<String>, counts: &Vec<u32>) -> (r: String)
    requires
        emails@.len() == counts@.len(),
    ensures
        r@ == online_body(text::texts(emails@), counts@),
{
    let mut entries: Vec<String> = Vec::new();
    let mut i: usize = 0;
    while i < emails.len()
        invariant
            i <= emails@.len(),
            emails@.len() == counts@.len(),
            entries@.len() == i,
            forall|k: int|
                0 <= k < i ==> (#[trigger] entries@[k])@ == online_entry(emails@[k]@, counts@[k]),
        decreases emails.len() - i,
    {
        let mut e = "{\"email\":\"".to_owned();
        e.append(&emails[i]);
        e.append("\",\"online\":");
        push_u64(&mut e, counts[i] as u64);
        e.append("}");
        entries.push(e);
        i += 1;
    }
    let mut s = "{\"users\":[".to_owned();
    s.append(&join(&entries, ","));
    s.append("]}");
    let ghost es = text::texts(emails@);
    assert(text::texts(entries@) =~= Seq::new(
        es.len(),
        |i: int| online_entry(es[i], counts@[i]),
    ));
    s
}

/// What a change makes of the bridge's configuration, given what it is as JSON: the text to write,
/// nothing, or the reason why it cannot be kept.
pub open spec fn persisted(change: Change, parsed: Result<JsonV, Seq<char>>) -> Result<
    Option<Seq<char>>,
    Seq<char>,
> {
    match parsed {
        Err(m) => Err("parse config: "@ + m),
        Ok(raw) => match bridge_config::bridge_clients(raw) {
            None => Err("no clients array in config"@),
            Some(a) => match change {
                Change::Add { uuid, email } => if crate::xray::types::first_id(
                    a,
                    uuid@,
                    0,
                ) is Some {
                    Ok(None)
                } else {
                    Ok(
                        Some(
                            codec::pretty_text(
                                bridge_config::with_bridge_clients(
                                    raw,
                                    a.push(bridge_config::bridge_client(uuid@, email@)),
                                ),
                            ),
                        ),
                    )
                },
                Change::Del { email } => if exists|i: int|
                    0 <= i < a.len() && bridge_config::has_email(#[trigger] a[i], email@) {
                    Ok(
                        Some(
                            codec::pretty_text(
                                bridge_config::with_bridge_clients(
                                    raw,
                                    a.filter(bridge_config::not_email(email@)),
                                ),
                            ),
                        ),
                    )
                } else {
                    Ok(None)
                },
            },
        },
    }
}

/// The meaning of the result of parsing.
pub open spec fn result_view(r: Result<Json, String>) -> Result<JsonV, Seq<char>> {
    match r {
        Ok(j) => Ok(j@),
        Err(e) => Err(e@),
    }
}

/// What a change makes of the bridge's configuration, given what it is as JSON.
pub fn persist(change: &Change, parsed: Result<Json, String>) -> (r: Result<Option<String>, String>)
    ensures
        match persisted(*change, result_view(parsed)) {
            Ok(t) => r matches Ok(x) && text::opt_text(x) == t,
            Err(m) => r matches Err(e) && e@ == m,
        },
{
    match parsed {
        Err(m) => {
            let mut s = "parse config: ".to_owned();
            s.append(&m);
            Err(s)
        },
        Ok(raw) => {
            let edit = match change {
                Change::Add { uuid, email } => add_client(raw, uuid, email),
                Change::Del { email } => remove_client(raw, email),
            };
            match edit {
                Edit::Unchanged => Ok(None),
                Edit::Write(c) => Ok(Some(c.to_pretty())),
                Edit::Fault(m) => Err(m),
            }
        },
    }
}

impl Exchange {
    /// An exchange that can come about: one that asks for connections has someone to ask for.
    pub open spec fn wf(self) -> bool {
        match self {
            Exchange::OnlineAsk { emails, counts, .. } => counts@.len() < emails@.len(),
            _ => true,
        }
    }

    /// What is asked for; nothing at the end.
    pub open spec fn asks(self) -> Option<TaskV> {
        match self {
            Exchange::Backup => Some(TaskV::ReadConfig),
            Exchange::RestoreWrite { config, .. } => Some(TaskV::WriteTemp(config@)),
            Exchange::RestoreMove { .. } => Some(TaskV::MoveTemp),
            Exchange::RestoreRestart { container } => Some(
                TaskV::Docker(restart_args(container@)),
            ),
            Exchange::Stats { container } => Some(TaskV::Docker(stats_args(container@))),
            Exchange::OnlineRead { .. } => Some(TaskV::ReadConfig),
            Exchange::OnlineAsk { container, emails, counts } => Some(
                TaskV::Docker(online_args(container@, emails@[counts@.len() as int]@)),
            ),
            Exchange::Change { container, change } => Some(
                TaskV::Docker(change_args(container@, change)),
            ),
            Exchange::PersistRead { .. } => Some(TaskV::ReadConfig),
            Exchange::PersistWrite { config } => Some(TaskV::WriteConfig(config@)),
            Exchange::Finished { .. } => None,
        }
    }

    /// The exchange is over with that response, and with that warning for the log.
    pub open spec fn finished(self, r: ResponseV, w: Option<Seq<char>>) -> bool {
        self matches Exchange::Finished { response, warning } && response@ == r && text::opt_text(
            warning,
        ) == w
    }

    /// Begins the work on a request to the bridge in that container.
    pub fn begin(route: Route, container: &str) -> (r: Exchange)
        ensures
            r.wf(),
            match route {
                Route::Respond(x) => r.finished(x@, None),
                Route::Backup => r is Backup,
                Route::Restore(b) => r matches Exchange::RestoreWrite { container: c, config } && c@
                    == container@ && config == b,
                Route::Stats => r matches Exchange::Stats { container: c } && c@ == container@,
                Route::Online => r matches Exchange::OnlineRead { container: c } && c@
                    == container@,
                Route::AddUser { uuid, email } => r matches Exchange::Change {
                    container: c,
                    change,
                } && c@ == container@ && change == (Change::Add { uuid, email }),
                Route::DelUser { email } => r matches Exchange::Change { container: c, change }
                    && c@ == container@ && change == (Change::Del { email }),
            },
    {
        match route {
            Route::Respond(response) => Exchange::Finished { response, warning: None },
            Route::Backup => Exchange::Backup,
            Route::Restore(config) => Exchange::RestoreWrite {
                container: container.to_owned(),
                config,
            },
            Route::Stats => Exchange::Stats { container: container.to_owned() },
            Route::Online => Exchange::OnlineRead { container: container.to_owned() },
            Route::AddUser { uuid, email } => Exchange::Change {
                container: container.to_owned(),
                change: Change::Add { uuid, email },
            },
            Route::DelUser { email } => Exchange::Change {
                container: container.to_owned(),
                change: Change::Del { email },
            },
        }
    }

    /// What is asked for.
    pub fn task(&self) -> (r: Option<Task>)
        requires
            self.wf(),
        ensures
            opt_task(r) == self.asks(),
    {
        match self {
            Exchange::Backup => Some(Task::ReadConfig),
            Exchange::RestoreWrite { config, .. } => Some(Task::WriteTemp(config.clone())),
            Exchange::RestoreMove { .. } => Some(Task::MoveTemp),
            Exchange::RestoreRestart { container } => Some(
                Task::Docker(build_restart_args(container)),
            ),
            Exchange::Stats { container } => Some(Task::Docker(build_stats_args(container))),
            Exchange::OnlineRead { .. } => Some(Task::ReadConfig),
            Exchange::OnlineAsk { container, emails, counts } => Some(
                Task::Docker(build_online_args(container, &emails[counts.len()])),
            ),
            Exchange::Change { container, change } => Some(
                Task::Docker(build_change_args(container, change)),
            ),
            Exchange::PersistRead { .. } => Some(Task::ReadConfig),
            Exchange::PersistWrite { config } => Some(Task::WriteConfig(config.clone())),
            Exchange::Finished { .. } => None,
        }
    }

    fn failed(prefix: &str, message: &str) -> (r: Exchange)
        ensures
            r.finished(failure(prefix@ + message@), None),
    {
        let mut s = prefix.to_owned();
        s.append(message);
        Exchange::Finished { response: Response::failure(&s), warning: None }
    }

    fn done(warning: Option<String>) -> (r: Exchange)
        ensures
            r.finished(ok_response(), text::opt_text(warning)),
    {
        Exchange::Finished { response: Response::success(), warning }
    }

    /// Goes on to the next user, or to the end.
    fn ask_next(container: String, emails: Vec<String>, counts: Vec<u32>) -> (r: Exchange)
        requires
            counts@.len() <= emails@.len(),
        ensures
            r.wf(),
            if counts@.len() < emails@.len() {
                r == (Exchange::OnlineAsk { container, emails, counts })
            } else {
                r.finished(in_json(200, online_body(text::texts(emails@), counts@)), None)
            },
    {
        if counts.len() < emails.len() {
            Exchange::OnlineAsk { container, emails, counts }
        } else {
            let body = build_online_body(&emails, &counts);
            Exchange::Finished { response: Response { status: 200, json: true, body }, warning: None }
        }
    }

    /// The next state, after the outcome of what was asked for.
    pub fn next(self, outcome: Outcome) -> (r: Exchange)
        requires
            self.wf(),
            comes_of(self.asks(), outcome),
        ensures
            r.wf(),
            match (self, outcome) {
                (Exchange::Backup, Outcome::Read(Ok(t))) => r.finished(in_json(200, t@), None),
                (Exchange::Backup, Outcome::Read(Err(e))) => r.finished(
                    failure("read config: "@ + e@),
                    None,
                ),
                (Exchange::RestoreWrite { container, .. }, Outcome::Written(Ok(()))) => r == (
                Exchange::RestoreMove { container }),
                (Exchange::RestoreWrite { .. }, Outcome::Written(Err(e))) => r.finished(
                    failure("write temp: "@ + e@),
                    None,
                ),
                (Exchange::RestoreMove { container }, Outcome::Written(Ok(()))) => r == (
                Exchange::RestoreRestart { container }),
                (Exchange::RestoreMove { .. }, Outcome::Written(Err(e))) => r.finished(
                    failure("rename: "@ + e@),
                    None,
                ),
                (Exchange::RestoreRestart { .. }, Outcome::Docker(Ok(o))) => if o.success {
                    r.finished(ok_response(), None)
                } else {
                    r.finished(
                        failure("docker restart failed: "@ + text::trimmed(o.stderr@)),
                        None,
                    )
                },
                (Exchange::RestoreRestart { .. }, Outcome::Docker(Err(e))) => r.finished(
                    failure("docker restart: "@ + e@),
                    None,
                ),
                (Exchange::Stats { .. }, Outcome::Docker(Ok(o))) => r.finished(
                    in_json(200, o.stdout@),
                    None,
                ),
                (Exchange::Stats { .. }, Outcome::Docker(Err(e))) => r.finished(failure(e@), None),
                (Exchange::OnlineRead { container }, Outcome::Read(t)) => {
                    let emails = match t {
                        Ok(x) => match answers::as_json(x@) {
                            Some(raw) => bridge_config::emails_of(raw),
                            None => Seq::empty(),
                        },
                        Err(_) => Seq::empty(),
                    };
                    if emails.len() == 0 {
                        r.finished(in_json(200, online_body(emails, Seq::empty())), None)
                    } else {
                        r matches Exchange::OnlineAsk { container: c, emails: es, counts } && c
                            == container && text::texts(es@) == emails && counts@ == Seq::<
                            u32,
                        >::empty()
                    }
                },
                (Exchange::OnlineAsk { container, emails, counts }, Outcome::Docker(o)) => {
                    let n = match o {
                        Ok(x) => if x.stdout_is_utf8 {
                            statsonline(answers::as_json(x.stdout@))
                        } else {
                            statsonline(answers::as_json(""@))
                        },
                        Err(_) => statsonline(answers::as_json(""@)),
                    };
                    if counts@.len() + 1 < emails@.len() {
                        r matches Exchange::OnlineAsk { container: c, emails: es, counts: ns } && c
                            == container && es == emails && ns@ == counts@.push(n as u32)
                    } else {
                        r.finished(
                            in_json(
                                200,
                                online_body(text::texts(emails@), counts@.push(n as u32)),
                            ),
                            None,
                        )
                    }
                },
                (Exchange::Change { change, .. }, Outcome::Docker(Ok(o))) => if o.success {
                    r == (Exchange::PersistRead { change })
                } else {
                    r.finished(failure(text::trimmed(o.stderr@)), None)
                },
                (Exchange::Change { .. }, Outcome::Docker(Err(e))) => r.finished(failure(e@), None),
                (Exchange::PersistRead { change }, Outcome::Read(Ok(t))) => match persisted(
                    change,
                    codec::json_of_text(t@),
                ) {
                    Ok(Some(c)) => r matches Exchange::PersistWrite { config } && config@ == c,
                    Ok(None) => r.finished(ok_response(), None),
                    Err(m) => r.finished(ok_response(), Some(m)),
                },
                (Exchange::PersistRead { .. }, Outcome::Read(Err(e))) => r.finished(
                    ok_response(),
                    Some("read config: "@ + e@),
                ),
                (Exchange::PersistWrite { .. }, Outcome::Written(Ok(()))) => r.finished(
                    ok_response(),
                    None,
                ),
                (Exchange::PersistWrite { .. }, Outcome::Written(Err(e))) => r.finished(
                    ok_response(),
                    Some("write config: "@ + e@),
                ),
                _ => true,
            },
    {
        match (self, outcome) {
            (Exchange::Backup, Outcome::Read(Ok(body))) => Exchange::Finished {
                response: Response { status: 200, json: true, body },
                warning: None,
            },
            (Exchange::Backup, Outcome::Read(Err(e))) => Exchange::failed("read config: ", &e),
            (Exchange::RestoreWrite { container, .. }, Outcome::Written(Ok(()))) => {
                Exchange::RestoreMove { container }
            },
            (Exchange::RestoreWrite { .. }, Outcome::Written(Err(e))) => {
                Exchange::failed("write temp: ", &e)
            },
            (Exchange::RestoreMove { container }, Outcome::Written(Ok(()))) => {
                Exchange::RestoreRestart { container }
            },
            (Exchange::RestoreMove { .. }, Outcome::Written(Err(e))) => {
                Exchange::failed("rename: ", &e)
            },
            (Exchange::RestoreRestart { .. }, Outcome::Docker(Ok(o))) => {
                if o.success {
                    Exchange::done(None)
                } else {
                    Exchange::failed("docker restart failed: ", &trim(&o.stderr))
                }
            },
            (Exchange::RestoreRestart { .. }, Outcome::Docker(Err(e))) => {
                Exchange::failed("docker restart: ", &e)
            },
            (Exchange::Stats { .. }, Outcome::Docker(Ok(o))) => Exchange::Finished {
                response: Response { status: 200, json: true, body: o.stdout },
                warning: None,
            },
            (Exchange::Stats { .. }, Outcome::Docker(Err(e))) => Exchange::Finished {
                response: Response::failure(&e),
                warning: None,
            },
            (Exchange::OnlineRead { container }, Outcome::Read(t)) => {
                let emails: Vec<String> = match t {
                    Ok(x) => match Json::parse(&x) {
                        Ok(config) => user_emails(&config),
                        Err(_) => Vec::new(),
                    },
                    Err(_) => Vec::new(),
                };
                assert(text::texts(emails@).len() == emails@.len());
                assert(emails@.len() == 0 ==> text::texts(emails@) =~= Seq::empty());
                let counts: Vec<u32> = Vec::new();
                Exchange::ask_next(container, emails, counts)
            },
            (Exchange::OnlineAsk { container, emails, counts }, Outcome::Docker(o)) => {
                let n: u32 = match o {
                    Ok(x) => if x.stdout_is_utf8 {
                        parse_statsonline(&x.stdout)
                    } else {
                        parse_statsonline("")
                    },
                    Err(_) => parse_statsonline(""),
                };
                let mut counts = counts;
                counts.push(n);
                Exchange::ask_next(container, emails, counts)
            },
            (Exchange::Change { change, .. }, Outcome::Docker(Ok(o))) => {
                if o.success {
                    Exchange::PersistRead { change }
                } else {
                    Exchange::Finished {
                        response: Response::failure(&trim(&o.stderr)),
                        warning: None,
                    }
                }
            },
            (Exchange::Change { .. }, Outcome::Docker(Err(e))) => Exchange::Finished {
                response: Response::failure(&e),
                warning: None,
            },
            (Exchange::PersistRead { change }, Outcome::Read(Ok(t))) => {
                match persist(&change, Json::parse(&t)) {
                    Ok(Some(config)) => Exchange::PersistWrite { config },
                    Ok(None) => Exchange::done(None),
                    Err(m) => Exchange::done(Some(m)),
                }
            },
            (Exchange::PersistRead { .. }, Outcome::Read(Err(e))) => {
                let mut s = "read config: ".to_owned();
                s.append(&e);
                Exchange::done(Some(s))
            },
            (Exchange::PersistWrite { .. }, Outcome::Written(Ok(()))) => Exchange::done(None),
            (Exchange::PersistWrite { .. }, Outcome::Written(Err(e))) => {
                let mut s = "write config: ".to_owned();
                s.append(&e);
                Exchange::done(Some(s))
            },
            (s, _) => s,
        }
    }
}

/// A change is kept on disk only after the running bridge has accepted it, and the configuration
/// replaces the old one only after it was written whole.
pub proof fn law_bridge_runs_before_disk(s: Exchange, o: Outcome, r: Exchange)
    requires
        s.wf(),
        comes_of(s.asks(), o),
        call_ensures(Exchange::next, (s, o), r),
    ensures
        r is PersistRead ==> s is Change && (o matches Outcome::Docker(Ok(x)) && x.success),
        r is PersistWrite ==> s is PersistRead,
        r is RestoreMove ==> s is RestoreWrite && (o matches Outcome::Written(Ok(_))),
        r is RestoreRestart ==> s is RestoreMove && (o matches Outcome::Written(Ok(_))),
{
}

} // verus!
