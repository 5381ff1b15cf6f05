//! Commands of the command line: what they print, and what they need for that.

use crate::app::keys;
use crate::app::keys::is_valid_token;
use crate::cli::tables;
use crate::cli::tables::{
    list_online, list_snapshots, list_users, show_check, show_server, who_is_online,
};
use crate::config::Config;
use crate::decimal;
use crate::decimal::u64_text;
use crate::error;
use crate::error::AppError;
use crate::text;
use crate::text::{cat2, cat3, cat5, is_empty, join, no_texts, push_text, same, trim};
use crate::work;
use crate::work::{emails_of, uuid_of_name, Got, Need, NeedV, SnapshotInfo, UpgradeResult};
use crate::xray::client;
use crate::xray::client::ServerInfo;
use crate::xray::table;
use crate::xray::types;
use crate::xray::types::{UserV, VlessUrlParams, XrayUser};
use crate::xray::urls;
use crate::xray::urls::generate_amnezia_url;
use vstd::prelude::*;

verus! {

/// A line that is printed, as a result or as a note beside it.
#[derive(Debug, Clone, PartialEq, Eq)]
pub enum Line {
    Print(String),
    Note(String),
}

pub enum LineV {
    Print(Seq<char>),
    Note(Seq<char>),
}

impl View for Line {
    type V = LineV;

    open spec fn view(&self) -> LineV {
        match self {
            Line::Print(t) => LineV::Print(t@),
            Line::Note(t) => LineV::Note(t@),
        }
    }
}

/// The meanings of lines.
pub open spec fn line_views(s: Seq<Line>) -> Seq<LineV> {
    Seq::new(s.len(), |i: int| s[i]@)
}

/// Texts as results.
pub open spec fn printed(s: Seq<Seq<char>>) -> Seq<LineV> {
    Seq::new(s.len(), |i: int| LineV::Print(s[i]))
}

/// How far a command is, and what it goes on with.
#[derive(Debug)]
pub enum Job {
    List,
    ListTraffic { users: Vec<XrayUser> },
    Check,
    CheckUsers,
    CheckInfo { users: usize },
    CheckProbe { users: usize, info: ServerInfo },
    Url { name: String },
    UrlBridge { uuid: String },
    UrlDirect { uuid: String, bridge_url: String },
    Qr { name: String },
    QrUrl { name: String, uuid: String },
    QrDraw { name: String, url: String },
    Vpn { name: String },
    VpnBridge { uuid: String },
    VpnDirect { uuid: String, bridge_vpn: String },
    Online,
    OnlineCounts { users: Vec<XrayUser> },
    OnlineIps { users: Vec<XrayUser>, counts: Vec<Option<u32>> },
    Info,
    InfoUsers { info: ServerInfo },
    InfoProbe { info: ServerInfo, users: usize },
    InfoUptime { info: ServerInfo, users: usize, api_ok: bool },
    InfoLatest { info: ServerInfo, users: usize, api_ok: bool, uptime: String },
    Bot,
    Backup,
    Restore { timestamp: Option<String> },
    Restoring { timestamp: Option<String> },
    Add { name: String },
    AddTable { name: String, taken: bool },
    AddApi { name: String },
    Adding { name: String },
    AddUrl { uuid: String },
    Delete { name: String, yes: bool },
    DeleteAsk { name: String, uuid: String },
    DeleteAnswer { name: String, uuid: String },
    Deleting { name: String, uuid: String },
    Rename { old_name: String, new_name: String },
    Deploy { token: String },
    Snapshot,
    Snapshots,
    SnapshotRestore { tag: Option<String> },
    SnapshotRestoring { tag: String },
    Upgrade,
    UpgradeNewest { version: String },
    Upgrading,
    Done,
    Failed { error: AppError },
}

/// A command with the lines that are printed before it goes on.
#[derive(Debug)]
pub struct Step {
    pub lines: Vec<Line>,
    pub job: Job,
}

/// Nothing is printed, and that is next.
pub open spec fn on(s: Step, job: Job) -> bool {
    s.lines@.len() == 0 && s.job == job
}

/// The command ends with these lines.
pub open spec fn done(s: Step, lines: Seq<LineV>) -> bool {
    line_views(s.lines@) == lines && s.job == Job::Done
}

/// The command fails with that error.
pub open spec fn failed(s: Step, e: AppError) -> bool {
    s.lines@.len() == 0 && s.job == (Job::Failed { error: e })
}

/// The command fails because of the server, with that message.
pub open spec fn failed_with(s: Step, m: Seq<char>) -> bool {
    s.lines@.len() == 0 && (s.job matches Job::Failed { error } && error::is_xray(error, m))
}

/// The command fails because of how it was given, with that message.
pub open spec fn misused(s: Step, m: Seq<char>) -> bool {
    s.lines@.len() == 0 && (s.job matches Job::Failed { error } && error::is_config(error, m))
}

impl Job {
    /// What the command needs next; nothing where it ends.
    pub open spec fn wants(self) -> Option<NeedV> {
        match self {
            Job::List => Some(NeedV::Users),
            Job::ListTraffic { users } => Some(
                NeedV::Traffic(work::emails(table::user_views(users@))),
            ),
            Job::Check => Some(NeedV::EnsureApi),
            Job::CheckUsers => Some(NeedV::Users),
            Job::CheckInfo { .. } => Some(NeedV::ServerInfo),
            Job::CheckProbe { .. } => Some(NeedV::Probe),
            Job::Url { .. } => Some(NeedV::Users),
            Job::UrlBridge { uuid } => Some(NeedV::BridgeUrl(uuid@)),
            Job::UrlDirect { uuid, .. } => Some(NeedV::DirectUrl(uuid@)),
            Job::Qr { .. } => Some(NeedV::Users),
            Job::QrUrl { uuid, .. } => Some(NeedV::ServerUrl(uuid@)),
            Job::QrDraw { url, .. } => Some(NeedV::QrLines(url@)),
            Job::Vpn { .. } => Some(NeedV::Users),
            Job::VpnBridge { .. } => Some(NeedV::BridgeParams),
            Job::VpnDirect { uuid, .. } => Some(NeedV::DirectParams(uuid@)),
            Job::Online => Some(NeedV::Users),
            Job::OnlineCounts { users } => Some(
                NeedV::Counts(work::emails(table::user_views(users@))),
            ),
            Job::OnlineIps { users, counts } => Some(
                NeedV::Ips(tables::online_emails(table::user_views(users@), counts@)),
            ),
            Job::Info => Some(NeedV::ServerInfo),
            Job::InfoUsers { .. } => Some(NeedV::Users),
            Job::InfoProbe { .. } => Some(NeedV::Probe),
            Job::InfoUptime { .. } => Some(NeedV::Uptime),
            Job::InfoLatest { .. } => Some(NeedV::Latest),
            Job::Bot => Some(NeedV::EnsureApi),
            Job::Backup => Some(NeedV::Backup),
            Job::Restore { .. } => Some(NeedV::Backups),
            Job::Restoring { timestamp } => Some(
                NeedV::RestoreBackup(text::opt_text(timestamp)),
            ),
            Job::Add { .. } => Some(NeedV::Config),
            Job::AddTable { .. } => Some(NeedV::Table),
            Job::AddApi { .. } => Some(NeedV::EnsureApi),
            Job::Adding { name } => Some(NeedV::AddUser(name@)),
            Job::AddUrl { uuid } => Some(NeedV::BridgeUrl(uuid@)),
            Job::Delete { .. } => Some(NeedV::Users),
            Job::DeleteAsk { .. } => Some(NeedV::Terminal),
            Job::DeleteAnswer { .. } => Some(NeedV::Line),
            Job::Deleting { uuid, .. } => Some(NeedV::RemoveUser(uuid@)),
            Job::Rename { old_name, new_name } => Some(
                NeedV::RenameUser(old_name@, new_name@),
            ),
            Job::Deploy { token } => Some(NeedV::Deploy(token@)),
            Job::Snapshot => Some(NeedV::CreateSnapshot),
            Job::Snapshots => Some(NeedV::Snapshots),
            Job::SnapshotRestore { .. } => Some(NeedV::Snapshots),
            Job::SnapshotRestoring { tag } => Some(NeedV::Restore(tag@)),
            Job::Upgrade => Some(NeedV::ServerInfo),
            Job::UpgradeNewest { .. } => Some(NeedV::Newest),
            Job::Upgrading => Some(NeedV::Upgrade),
            Job::Done => None,
            Job::Failed { .. } => None,
        }
    }

    /// Connections are counted for each user.
    pub open spec fn wf(self) -> bool {
        self matches Job::OnlineIps { users, counts } ==> users@.len() == counts@.len()
    }

    /// What the command needs next; nothing where it ends.
    pub fn need(&self) -> (r: Option<Need>)
        requires
            self.wf(),
        ensures
            work::opt_need(r) == self.wants(),
    {
        match self {
            Job::List => Some(Need::Users),
            Job::ListTraffic { users } => Some(Need::Traffic(emails_of(users))),
            Job::Check => Some(Need::EnsureApi),
            Job::CheckUsers => Some(Need::Users),
            Job::CheckInfo { .. } => Some(Need::ServerInfo),
            Job::CheckProbe { .. } => Some(Need::Probe),
            Job::Url { .. } => Some(Need::Users),
            Job::UrlBridge { uuid } => Some(Need::BridgeUrl(uuid.clone())),
            Job::UrlDirect { uuid, .. } => Some(Need::DirectUrl(uuid.clone())),
            Job::Qr { .. } => Some(Need::Users),
            Job::QrUrl { uuid, .. } => Some(Need::ServerUrl(uuid.clone())),
            Job::QrDraw { url, .. } => Some(Need::QrLines(url.clone())),
            Job::Vpn { .. } => Some(Need::Users),
            Job::VpnBridge { .. } => Some(Need::BridgeParams),
            Job::VpnDirect { uuid, .. } => Some(Need::DirectParams(uuid.clone())),
            Job::Online => Some(Need::Users),
            Job::OnlineCounts { users } => Some(Need::Counts(emails_of(users))),
            Job::OnlineIps { users, counts } => Some(Need::Ips(who_is_online(users, counts))),
            Job::Info => Some(Need::ServerInfo),
            Job::InfoUsers { .. } => Some(Need::Users),
            Job::InfoProbe { .. } => Some(Need::Probe),
            Job::InfoUptime { .. } => Some(Need::Uptime),
            Job::InfoLatest { .. } => Some(Need::Latest),
            Job::Bot => Some(Need::EnsureApi),
            Job::Backup => Some(Need::Backup),
            Job::Restore { .. } => Some(Need::Backups),
            Job::Restoring { timestamp } => Some(Need::RestoreBackup(timestamp.clone())),
            Job::Add { .. } => Some(Need::Config),
            Job::AddTable { .. } => Some(Need::Table),
            Job::AddApi { .. } => Some(Need::EnsureApi),
            Job::Adding { name } => Some(Need::AddUser(name.clone())),
            Job::AddUrl { uuid } => Some(Need::BridgeUrl(uuid.clone())),
            Job::Delete { .. } => Some(Need::Users),
            Job::DeleteAsk { .. } => Some(Need::Terminal),
            Job::DeleteAnswer { .. } => Some(Need::Line),
            Job::Deleting { uuid, .. } => Some(Need::RemoveUser(uuid.clone())),
            Job::Rename { old_name, new_name } => Some(
                Need::RenameUser { old_name: old_name.clone(), new_name: new_name.clone() },
            ),
            Job::Deploy { token } => Some(Need::Deploy(token.clone())),
            Job::Snapshot => Some(Need::CreateSnapshot),
            Job::Snapshots => Some(Need::Snapshots),
            Job::SnapshotRestore { .. } => Some(Need::Snapshots),
            Job::SnapshotRestoring { tag } => Some(Need::Restore(tag.clone())),
            Job::Upgrade => Some(Need::ServerInfo),
            Job::UpgradeNewest { .. } => Some(Need::Newest),
            Job::Upgrading => Some(Need::Upgrade),
            Job::Done => None,
            Job::Failed { .. } => None,
        }
    }
}

// ---- lines ----

fn no_lines() -> (r: Vec<Line>)
    ensures
        line_views(r@) == Seq::<LineV>::empty(),
{
    let r: Vec<Line> = Vec::new();
    assert(line_views(r@) =~= Seq::empty());
    r
}

fn print(v: &mut Vec<Line>, text: String)
    ensures
        line_views(final(v)@) == line_views(old(v)@).push(LineV::Print(text@)),
{
    let ghost before = line_views(v@);
    v.push(Line::Print(text));
    assert(line_views(v@) =~= before.push(LineV::Print(text@)));
}

fn note(v: &mut Vec<Line>, text: String)
    ensures
        line_views(final(v)@) == line_views(old(v)@).push(LineV::Note(text@)),
{
    let ghost before = line_views(v@);
    v.push(Line::Note(text));
    assert(line_views(v@) =~= before.push(LineV::Note(text@)));
}

fn print_all(texts: Vec<String>) -> (r: Vec<Line>)
    ensures
        line_views(r@) == printed(text::texts(texts@)),
{
    let mut r = no_lines();
    let mut i: usize = 0;
    while i < texts.len()
        invariant
            i <= texts@.len(),
            line_views(r@) =~= printed(text::texts(texts@)).take(i as int),
        decreases texts.len() - i,
    {
        print(&mut r, texts[i].clone());
        i += 1;
    }
    assert(line_views(r@) =~= printed(text::texts(texts@)));
    r
}

fn print_one(text: String) -> (r: Vec<Line>)
    ensures
        line_views(r@) == seq![LineV::Print(text@)],
{
    let mut r = no_lines();
    print(&mut r, text);
    assert(line_views(r@) =~= seq![LineV::Print(text@)]);
    r
}

fn print_two(a: String, b: String) -> (r: Vec<Line>)
    ensures
        line_views(r@) == seq![LineV::Print(a@), LineV::Print(b@)],
{
    let mut r = no_lines();
    print(&mut r, a);
    print(&mut r, b);
    assert(line_views(r@) =~= seq![LineV::Print(a@), LineV::Print(b@)]);
    r
}

fn note_one(text: String) -> (r: Vec<Line>)
    ensures
        line_views(r@) == seq![LineV::Note(text@)],
{
    let mut r = no_lines();
    note(&mut r, text);
    assert(line_views(r@) =~= seq![LineV::Note(text@)]);
    r
}

fn go(job: Job) -> (r: Step)
    ensures
        on(r, job),
{
    Step { lines: Vec::new(), job }
}

fn finish(lines: Vec<Line>) -> (r: Step)
    ensures
        done(r, line_views(lines@)),
{
    Step { lines, job: Job::Done }
}

fn fail(error: AppError) -> (r: Step)
    ensures
        failed(r, error),
{
    Step { lines: Vec::new(), job: Job::Failed { error } }
}

fn fail_xray(m: String) -> (r: Step)
    ensures
        failed_with(r, m@),
{
    fail(AppError::Xray(m))
}

fn missing(name: &str) -> (r: Step)
    ensures
        failed_with(r, work::not_found(name@)),
{
    fail_xray(cat3("user '", name, "' not found"))
}

// ---- how commands begin ----

/// Where a connection goes, as it is announced.
pub open spec fn connecting(config: Config, user: Seq<char>, port: nat) -> Seq<char> {
    "Connecting to "@ + user + "@"@ + (match config.ssh_host {
        Some(h) => h@,
        None => match config.host {
            Some(h) => h@,
            None => "?"@,
        },
    }) + ":"@ + decimal::dec(port) + "..."@
}

/// Announces where a connection goes.
pub fn connecting_line(config: &Config, user: &str, port: u16) -> (r: String)
    ensures
        r@ == connecting(*config, user@, port as nat),
{
    let host: &str = match &config.ssh_host {
        Some(h) => h.as_str(),
        None => match &config.host {
            Some(h) => h.as_str(),
            None => "?",
        },
    };
    let mut s = cat5("Connecting to ", user, "@", host, ":");
    s.append(&u64_text(port as u64));
    s.append("...");
    s
}

/// Begins a check of the server.
pub fn cli_check_server() -> (r: Step)
    ensures
        line_views(r.lines@) == seq![LineV::Note("Checking API configuration..."@)],
        r.job == Job::Check,
{
    Step { lines: note_one("Checking API configuration...".to_owned()), job: Job::Check }
}

/// Begins to run the bot.
pub fn cli_telegram_bot() -> (r: Step)
    ensures
        line_views(r.lines@) == seq![LineV::Note("Checking Xray API configuration..."@)],
        r.job == Job::Bot,
{
    Step { lines: note_one("Checking Xray API configuration...".to_owned()), job: Job::Bot }
}

/// Begins a backup.
pub fn cli_backup() -> (r: Step)
    ensures
        line_views(r.lines@) == seq![LineV::Note("Creating timestamped backup..."@)],
        r.job == Job::Backup,
{
    Step { lines: note_one("Creating timestamped backup...".to_owned()), job: Job::Backup }
}

/// Begins to add a user.
pub fn cli_add_user(name: &str) -> (r: Step)
    ensures
        if text::trimmed(name@).len() == 0 {
            failed_with(r, "user name cannot be empty"@)
        } else {
            r.lines@.len() == 0 && (r.job matches Job::Add { name: n } && n@ == name@)
        },
{
    if is_empty(&trim(name)) {
        fail_xray("user name cannot be empty".to_owned())
    } else {
        go(Job::Add { name: name.to_owned() })
    }
}

/// Begins to deploy the bot.
pub fn cli_deploy_bot(token: &str) -> (r: Step)
    ensures
        if keys::token_ok(token@) {
            line_views(r.lines@) == seq![
                LineV::Note("Connecting to VPS..."@),
                LineV::Note("Deploying Telegram bot..."@),
            ] && (r.job matches Job::Deploy { token: t } && t@ == token@)
        } else {
            misused(r, "Invalid token format (expected <digits>:<secret>)"@)
        },
{
    if !is_valid_token(token) {
        return fail(
            AppError::Config("Invalid token format (expected <digits>:<secret>)".to_owned()),
        );
    }
    let mut lines = no_lines();
    note(&mut lines, "Connecting to VPS...".to_owned());
    note(&mut lines, "Deploying Telegram bot...".to_owned());
    assert(line_views(lines@) =~= seq![
        LineV::Note("Connecting to VPS..."@),
        LineV::Note("Deploying Telegram bot..."@),
    ]);
    Step { lines, job: Job::Deploy { token: token.to_owned() } }
}

/// Begins a snapshot.
pub fn cli_snapshot() -> (r: Step)
    ensures
        line_views(r.lines@) == seq![LineV::Note("Creating snapshot..."@)],
        r.job == Job::Snapshot,
{
    Step { lines: note_one("Creating snapshot...".to_owned()), job: Job::Snapshot }
}

// ---- how commands go on ----

/// That the API had to be enabled, or not.
pub open spec fn api_line(modified: bool) -> Seq<char> {
    if modified {
        "API was not configured — enabled and container restarted."@
    } else {
        "API already configured."@
    }
}

fn api_text(modified: bool) -> (r: String)
    ensures
        r@ == api_line(modified),
{
    if modified {
        "API was not configured — enabled and container restarted.".to_owned()
    } else {
        "API already configured.".to_owned()
    }
}

/// Whether the statistics can be had; not where that cannot be said.
pub open spec fn is_up(got: Got) -> bool {
    got matches Got::Yes(b) && b
}

/// Listing the users, and checking the server, goes on.
pub open spec fn list_after(j: Job, got: Got, r: Step) -> bool {
    match (j, got) {
        (Job::List, Got::Users(users)) => on(r, Job::ListTraffic { users }),
        (Job::ListTraffic { users }, Got::Traffic(t)) => done(
            r,
            printed(tables::users_table(tables::with_stats(table::user_views(users@), t@))),
        ),
        (Job::Check, Got::Yes(modified)) => line_views(r.lines@) == seq![
            LineV::Note(api_line(modified)),
        ] && r.job == Job::CheckUsers,
        (Job::CheckUsers, Got::Users(users)) => on(
            r,
            Job::CheckInfo { users: users@.len() as usize },
        ),
        (Job::CheckInfo { users }, Got::Info(info)) => on(r, Job::CheckProbe { users, info }),
        (Job::CheckProbe { users, info }, _) => done(
            r,
            seq![LineV::Print(tables::check_line(is_up(got), users as nat, info.version@))],
        ),
        (_, Got::Failed(e)) => failed(r, e),
        _ => true,
    }
}

fn next_list(j: Job, got: Got) -> (r: Step)
    requires
        j is List || j is ListTraffic || j is Check || j is CheckUsers || j is CheckInfo
            || j is CheckProbe,
        work::fits(j.wants(), got),
    ensures
        list_after(j, got, r),
        r.job.wf(),
{
    match (j, got) {
        (Job::List, Got::Users(users)) => go(Job::ListTraffic { users }),
        (Job::ListTraffic { users }, Got::Traffic(t)) => finish(print_all(list_users(&users, &t))),
        (Job::Check, Got::Yes(modified)) => Step {
            lines: note_one(api_text(modified)),
            job: Job::CheckUsers,
        },
        (Job::CheckUsers, Got::Users(users)) => go(Job::CheckInfo { users: users.len() }),
        (Job::CheckInfo { users }, Got::Info(info)) => go(Job::CheckProbe { users, info }),
        (Job::CheckProbe { users, info }, Got::Yes(ok)) => finish(
            print_one(show_check(ok, users, &info.version)),
        ),
        (Job::CheckProbe { users, info }, _) => finish(
            print_one(show_check(false, users, &info.version)),
        ),
        (j, Got::Failed(e)) => fail(e),
        (j, _) => go(Job::Done),
    }
}

/// The id of the user of that name, from which the command goes on.
pub open spec fn uuid_in(users: Seq<UserV>, name: Seq<char>) -> Option<Seq<char>> {
    match work::named(users, name) {
        Some(u) => Some(u.uuid),
        None => None,
    }
}

/// Lines as results, then an empty one, a name and a URL.
pub open spec fn qr_lines(lines: Seq<Seq<char>>, name: Seq<char>, url: Seq<char>) -> Seq<LineV> {
    printed(lines) + seq![LineV::Print(Seq::empty()), LineV::Print(name), LineV::Print(url)]
}

/// Showing the URLs of a user goes on.
pub open spec fn url_after(j: Job, got: Got, r: Step) -> bool {
    match (j, got) {
        (Job::Url { name }, Got::Users(users)) => match uuid_in(
            table::user_views(users@),
            name@,
        ) {
            Some(u) => r.lines@.len() == 0 && (r.job matches Job::UrlBridge { uuid } && uuid@
                == u),
            None => failed_with(r, work::not_found(name@)),
        },
        (Job::UrlBridge { uuid }, Got::Text(bridge_url)) => on(
            r,
            Job::UrlDirect { uuid, bridge_url },
        ),
        (Job::UrlDirect { uuid, bridge_url }, Got::Text(direct_url)) => done(
            r,
            seq![
                LineV::Print("Bridge: "@ + bridge_url@),
                LineV::Print("Direct: "@ + direct_url@),
            ],
        ),
        (Job::Qr { name }, Got::Users(users)) => match uuid_in(
            table::user_views(users@),
            name@,
        ) {
            Some(u) => r.lines@.len() == 0 && (r.job matches Job::QrUrl { name: n, uuid } && n
                == name && uuid@ == u),
            None => failed_with(r, work::not_found(name@)),
        },
        (Job::QrUrl { name, uuid }, Got::Text(url)) => on(r, Job::QrDraw { name, url }),
        (Job::QrDraw { name, url }, Got::Lines(lines)) => done(
            r,
            qr_lines(text::texts(lines@), name@, url@),
        ),
        (Job::QrDraw { name, url }, Got::Refused(e)) => failed_with(
            r,
            "QR generation failed: "@ + e@,
        ),
        (Job::Vpn { name }, Got::Users(users)) => match uuid_in(
            table::user_views(users@),
            name@,
        ) {
            Some(u) => r.lines@.len() == 0 && (r.job matches Job::VpnBridge { uuid } && uuid@
                == u),
            None => failed_with(r, work::not_found(name@)),
        },
        (Job::VpnBridge { uuid }, Got::Bridge(b)) => r.lines@.len() == 0 && (r.job
            matches Job::VpnDirect { uuid: u, bridge_vpn } && u == uuid && bridge_vpn@
            == urls::vpn_url(
            urls::amnezia_data(
                VlessUrlParams {
                    uuid,
                    host: b.host,
                    port: b.port,
                    sni: b.sni,
                    public_key: b.public_key,
                    short_id: b.short_id,
                    path: b.path,
                },
            ),
        )),
        (Job::VpnDirect { uuid, bridge_vpn }, Got::Params(p)) => done(
            r,
            seq![
                LineV::Print("Bridge: "@ + bridge_vpn@),
                LineV::Print("Direct: "@ + urls::vpn_url(urls::amnezia_data(p))),
            ],
        ),
        (_, Got::Failed(e)) => failed(r, e),
        _ => true,
    }
}

fn draw(lines: Vec<String>, name: String, url: String) -> (r: Vec<Line>)
    ensures
        line_views(r@) == qr_lines(text::texts(lines@), name@, url@),
{
    let mut r = print_all(lines);
    print(&mut r, String::new());
    print(&mut r, name);
    print(&mut r, url);
    assert(line_views(r@) =~= qr_lines(text::texts(lines@), name@, url@));
    r
}

fn next_url(j: Job, got: Got) -> (r: Step)
    requires
        j is Url || j is UrlBridge || j is UrlDirect || j is Qr || j is QrUrl || j is QrDraw
            || j is Vpn || j is VpnBridge || j is VpnDirect,
        work::fits(j.wants(), got),
    ensures
        url_after(j, got, r),
        r.job.wf(),
{
    match (j, got) {
        (Job::Url { name }, Got::Users(users)) => match uuid_of_name(&users, &name) {
            Some(uuid) => go(Job::UrlBridge { uuid }),
            None => missing(&name),
        },
        (Job::UrlBridge { uuid }, Got::Text(bridge_url)) => go(Job::UrlDirect { uuid, bridge_url }),
        (Job::UrlDirect { uuid, bridge_url }, Got::Text(direct_url)) => finish(
            print_two(cat2("Bridge: ", &bridge_url), cat2("Direct: ", &direct_url)),
        ),
        (Job::Qr { name }, Got::Users(users)) => match uuid_of_name(&users, &name) {
            Some(uuid) => go(Job::QrUrl { name, uuid }),
            None => missing(&name),
        },
        (Job::QrUrl { name, uuid }, Got::Text(url)) => go(Job::QrDraw { name, url }),
        (Job::QrDraw { name, url }, Got::Lines(lines)) => finish(draw(lines, name, url)),
        (Job::QrDraw { name, url }, Got::Refused(e)) => fail_xray(
            cat2("QR generation failed: ", &e),
        ),
        (Job::Vpn { name }, Got::Users(users)) => match uuid_of_name(&users, &name) {
            Some(uuid) => go(Job::VpnBridge { uuid }),
            None => missing(&name),
        },
        (Job::VpnBridge { uuid }, Got::Bridge(b)) => {
            let params = VlessUrlParams {
                uuid: uuid.clone(),
                host: b.host,
                port: b.port,
                sni: b.sni,
                public_key: b.public_key,
                short_id: b.short_id,
                path: b.path,
            };
            go(Job::VpnDirect { uuid, bridge_vpn: generate_amnezia_url(&params) })
        },
        (Job::VpnDirect { uuid, bridge_vpn }, Got::Params(p)) => finish(
            print_two(
                cat2("Bridge: ", &bridge_vpn),
                cat2("Direct: ", &generate_amnezia_url(&p)),
            ),
        ),
        (j, Got::Failed(e)) => fail(e),
        (j, _) => go(Job::Done),
    }
}

/// Listing the connections, and what is known of the server, goes on.
pub open spec fn info_after(j: Job, got: Got, r: Step) -> bool {
    match (j, got) {
        (Job::Online, Got::Users(users)) => if users@.len() == 0 {
            done(r, seq![LineV::Print("No users found."@)])
        } else {
            on(r, Job::OnlineCounts { users })
        },
        (Job::OnlineCounts { users }, Got::Counts(counts)) => on(
            r,
            Job::OnlineIps { users, counts },
        ),
        (Job::OnlineIps { users, counts }, Got::Ips(ips)) => done(
            r,
            printed(tables::online_table(table::user_views(users@), counts@, ips@)),
        ),
        (Job::Info, Got::Info(info)) => on(r, Job::InfoUsers { info }),
        (Job::InfoUsers { info }, Got::Users(users)) => on(
            r,
            Job::InfoProbe { info, users: users@.len() as usize },
        ),
        (Job::InfoProbe { info, users }, _) => on(
            r,
            Job::InfoUptime { info, users, api_ok: is_up(got) },
        ),
        (Job::InfoUptime { info, users, api_ok }, Got::Text(uptime)) => on(
            r,
            Job::InfoLatest { info, users, api_ok, uptime },
        ),
        (Job::InfoLatest { info, users, api_ok, uptime }, Got::Maybe(latest)) => done(
            r,
            printed(
                tables::server_lines(
                    info,
                    users as nat,
                    api_ok,
                    uptime@,
                    text::opt_text(latest),
                ),
            ),
        ),
        (_, Got::Failed(e)) => failed(r, e),
        _ => true,
    }
}

fn next_info(j: Job, got: Got) -> (r: Step)
    requires
        j is Online || j is OnlineCounts || j is OnlineIps || j is Info || j is InfoUsers
            || j is InfoProbe || j is InfoUptime || j is InfoLatest,
        work::fits(j.wants(), got),
        j.wf(),
    ensures
        info_after(j, got, r),
        r.job.wf(),
{
    match (j, got) {
        (Job::Online, Got::Users(users)) => if users.len() == 0 {
            finish(print_one("No users found.".to_owned()))
        } else {
            go(Job::OnlineCounts { users })
        },
        (Job::OnlineCounts { users }, Got::Counts(counts)) => go(Job::OnlineIps { users, counts }),
        (Job::OnlineIps { users, counts }, Got::Ips(ips)) => finish(
            print_all(list_online(&users, &counts, &ips)),
        ),
        (Job::Info, Got::Info(info)) => go(Job::InfoUsers { info }),
        (Job::InfoUsers { info }, Got::Users(users)) => go(
            Job::InfoProbe { info, users: users.len() },
        ),
        (Job::InfoProbe { info, users }, Got::Yes(api_ok)) => go(
            Job::InfoUptime { info, users, api_ok },
        ),
        (Job::InfoProbe { info, users }, _) => go(
            Job::InfoUptime { info, users, api_ok: false },
        ),
        (Job::InfoUptime { info, users, api_ok }, Got::Text(uptime)) => go(
            Job::InfoLatest { info, users, api_ok, uptime },
        ),
        (Job::InfoLatest { info, users, api_ok, uptime }, Got::Maybe(latest)) => finish(
            print_all(show_server(&info, users, api_ok, &uptime, &latest)),
        ),
        (j, Got::Failed(e)) => fail(e),
        (j, _) => go(Job::Done),
    }
}

/// The backups that there are, the newest first.
pub open spec fn backup_lines(v: Seq<Seq<char>>) -> Seq<LineV> {
    seq![LineV::Note("Available backups:"@)] + Seq::new(
        v.len(),
        |i: int|
            LineV::Note(
                "  "@ + v[i] + (if i == 0 {
                    " (latest)"@
                } else {
                    Seq::empty()
                }),
            ),
    )
}

fn list_backups(v: &Vec<String>) -> (r: Vec<Line>)
    ensures
        line_views(r@) == backup_lines(text::texts(v@)),
{
    let ghost all = backup_lines(text::texts(v@));
    let mut r = no_lines();
    note(&mut r, "Available backups:".to_owned());
    let mut i: usize = 0;
    while i < v.len()
        invariant
            all == backup_lines(text::texts(v@)),
            i <= v@.len(),
            line_views(r@) =~= all.take(i + 1),
        decreases v.len() - i,
    {
        let line = cat3(
            "  ",
            &v[i],
            if i == 0 {
                " (latest)"
            } else {
                ""
            },
        );
        proof {
            reveal_strlit("");
            assert(""@ =~= Seq::<char>::empty());
            assert(all[i + 1] == LineV::Note(line@));
        }
        note(&mut r, line);
        i += 1;
    }
    assert(line_views(r@) =~= all);
    r
}

/// Running the bot, making a backup and restoring one goes on.
pub open spec fn backup_after(j: Job, got: Got, r: Step) -> bool {
    match (j, got) {
        (Job::Bot, Got::Yes(modified)) => done(r, seq![LineV::Note(api_line(modified))]),
        (Job::Bot, Got::Failed(e)) => failed_with(
            r,
            "failed to ensure Xray API is enabled (bot cannot operate without it): "@ + e.text(),
        ),
        (Job::Backup, Got::Text(ts)) => done(
            r,
            seq![
                LineV::Print("Backup created:"@),
                LineV::Print("  server.json."@ + ts@ + ".bak"@),
                LineV::Print("  clientsTable."@ + ts@ + ".bak"@),
            ],
        ),
        (Job::Restore { timestamp }, Got::Lines(v)) => if v@.len() == 0 {
            failed_with(r, "no timestamped backups found"@)
        } else {
            line_views(r.lines@) == backup_lines(text::texts(v@)) && r.job == (Job::Restoring {
                timestamp,
            })
        },
        (Job::Restoring { timestamp }, Got::Text(ts)) => done(
            r,
            seq![
                LineV::Print("Restored from backup "@ + ts@ + ":"@),
                LineV::Print("  server.json."@ + ts@ + ".bak -> server.json"@),
                LineV::Print("  clientsTable."@ + ts@ + ".bak -> clientsTable"@),
                LineV::Print("Container restarted."@),
            ],
        ),
        (_, Got::Failed(e)) => failed(r, e),
        _ => true,
    }
}

fn next_backup(j: Job, got: Got) -> (r: Step)
    requires
        j is Bot || j is Backup || j is Restore || j is Restoring,
        work::fits(j.wants(), got),
    ensures
        backup_after(j, got, r),
        r.job.wf(),
{
    match (j, got) {
        (Job::Bot, Got::Yes(modified)) => finish(note_one(api_text(modified))),
        (Job::Bot, Got::Failed(e)) => fail_xray(
            cat2(
                "failed to ensure Xray API is enabled (bot cannot operate without it): ",
                e.message(),
            ),
        ),
        (Job::Backup, Got::Text(ts)) => {
            let mut lines = print_one("Backup created:".to_owned());
            print(&mut lines, cat3("  server.json.", &ts, ".bak"));
            print(&mut lines, cat3("  clientsTable.", &ts, ".bak"));
            assert(line_views(lines@) =~= seq![
                LineV::Print("Backup created:"@),
                LineV::Print("  server.json."@ + ts@ + ".bak"@),
                LineV::Print("  clientsTable."@ + ts@ + ".bak"@),
            ]);
            finish(lines)
        },
        (Job::Restore { timestamp }, Got::Lines(v)) => if v.len() == 0 {
            fail_xray("no timestamped backups found".to_owned())
        } else {
            Step { lines: list_backups(&v), job: Job::Restoring { timestamp } }
        },
        (Job::Restoring { timestamp }, Got::Text(ts)) => {
            let mut lines = print_one(cat3("Restored from backup ", &ts, ":"));
            print(&mut lines, cat3("  server.json.", &ts, ".bak -> server.json"));
            print(&mut lines, cat3("  clientsTable.", &ts, ".bak -> clientsTable"));
            print(&mut lines, "Container restarted.".to_owned());
            assert(line_views(lines@) =~= seq![
                LineV::Print("Restored from backup "@ + ts@ + ":"@),
                LineV::Print("  server.json."@ + ts@ + ".bak -> server.json"@),
                LineV::Print("  clientsTable."@ + ts@ + ".bak -> clientsTable"@),
                LineV::Print("Container restarted."@),
            ]);
            finish(lines)
        },
        (j, Got::Failed(e)) => fail(e),
        (j, _) => go(Job::Done),
    }
}

/// Adding a user goes on. A name that is taken is refused before anything is changed.
pub open spec fn add_after(j: Job, got: Got, r: Step) -> bool {
    match (j, got) {
        (Job::Add { name }, Got::Config(c)) => on(
            r,
            Job::AddTable { name, taken: client::email_taken(c@, types::email_of(name@)) },
        ),
        (Job::AddTable { name, taken }, Got::Table(t)) => if taken || exists|i: int|
            0 <= i < t@.len() && (#[trigger] t@[i]).name == name@ {
            failed_with(r, "user '"@ + name@ + "' already exists"@)
        } else {
            on(r, Job::AddApi { name })
        },
        (Job::AddApi { name }, Got::Yes(modified)) => line_views(r.lines@) == (if modified {
            seq![LineV::Note(api_line(true))]
        } else {
            Seq::empty()
        }) && r.job == (Job::Adding { name }),
        (Job::Adding { name }, Got::Text(uuid)) => line_views(r.lines@) == seq![
            LineV::Print("User added successfully."@),
            LineV::Print("Name:  "@ + name@),
            LineV::Print("UUID:  "@ + uuid@),
        ] && r.job == (Job::AddUrl { uuid }),
        (Job::AddUrl { uuid }, Got::Text(url)) => done(r, seq![LineV::Print("Bridge: "@ + url@)]),
        (Job::AddUrl { uuid }, Got::Failed(e)) => done(
            r,
            seq![
                LineV::Note(
                    "Warning: bridge URL generation failed: "@ + e.text()
                        + ". Use --user-url to retry."@,
                ),
            ],
        ),
        (_, Got::Failed(e)) => failed(r, e),
        _ => true,
    }
}

fn next_add(j: Job, got: Got) -> (r: Step)
    requires
        j is Add || j is AddTable || j is AddApi || j is Adding || j is AddUrl,
        work::fits(j.wants(), got),
    ensures
        add_after(j, got, r),
        r.job.wf(),
{
    match (j, got) {
        (Job::Add { name }, Got::Config(c)) => {
            let taken: bool = c.has_client_email(&XrayUser::email_from_name(&name));
            go(Job::AddTable { name, taken })
        },
        (Job::AddTable { name, taken }, Got::Table(t)) => if taken || t.has_name(&name) {
            fail_xray(cat3("user '", &name, "' already exists"))
        } else {
            go(Job::AddApi { name })
        },
        (Job::AddApi { name }, Got::Yes(modified)) => Step {
            lines: if modified {
                note_one(api_text(true))
            } else {
                no_lines()
            },
            job: Job::Adding { name },
        },
        (Job::Adding { name }, Got::Text(uuid)) => {
            let mut lines = print_one("User added successfully.".to_owned());
            print(&mut lines, cat2("Name:  ", &name));
            print(&mut lines, cat2("UUID:  ", &uuid));
            assert(line_views(lines@) =~= seq![
                LineV::Print("User added successfully."@),
                LineV::Print("Name:  "@ + name@),
                LineV::Print("UUID:  "@ + uuid@),
            ]);
            Step { lines, job: Job::AddUrl { uuid } }
        },
        (Job::AddUrl { uuid }, Got::Text(url)) => finish(print_one(cat2("Bridge: ", &url))),
        (Job::AddUrl { uuid }, Got::Failed(e)) => finish(
            note_one(
                cat3(
                    "Warning: bridge URL generation failed: ",
                    e.message(),
                    ". Use --user-url to retry.",
                ),
            ),
        ),
        (j, Got::Failed(e)) => fail(e),
        (j, _) => go(Job::Done),
    }
}

/// Deleting and renaming a user goes on. Unless told otherwise, somebody has to type the name
/// before a user is deleted.
pub open spec fn delete_after(j: Job, got: Got, r: Step) -> bool {
    match (j, got) {
        (Job::Delete { name, yes }, Got::Users(users)) => match uuid_in(
            table::user_views(users@),
            name@,
        ) {
            Some(u) => r.lines@.len() == 0 && if yes {
                r.job matches Job::Deleting { name: n, uuid } && n == name && uuid@ == u
            } else {
                r.job matches Job::DeleteAsk { name: n, uuid } && n == name && uuid@ == u
            },
            None => failed_with(r, work::not_found(name@)),
        },
        (Job::DeleteAsk { name, uuid }, Got::Yes(there)) => if there {
            line_views(r.lines@) == seq![
                LineV::Note(
                    "Are you sure you want to delete user '"@ + name@
                        + "'? Type the user name to confirm:"@,
                ),
            ] && r.job == (Job::DeleteAnswer { name, uuid })
        } else {
            misused(r, "Interactive confirmation required. Use --yes to skip."@)
        },
        (Job::DeleteAnswer { name, uuid }, Got::Text(line)) => if text::trimmed(line@) == name@ {
            on(r, Job::Deleting { name, uuid })
        } else {
            done(r, seq![LineV::Note("Name does not match. Deletion cancelled."@)])
        },
        (Job::Deleting { name, uuid }, Got::Done) => done(
            r,
            seq![LineV::Print("User '"@ + name@ + "' deleted."@)],
        ),
        (Job::Rename { old_name, new_name }, Got::Done) => done(
            r,
            seq![
                LineV::Print("User renamed: '"@ + old_name@ + "' -> '"@ + new_name@ + "'"@),
                LineV::Print("Note: rename resets traffic stats history for this user."@),
            ],
        ),
        (Job::Deploy { token }, Got::Text(m)) => done(r, seq![LineV::Print(m@)]),
        (Job::Deploy { token }, Got::Refused(e)) => failed_with(r, e@),
        (_, Got::Failed(e)) => failed(r, e),
        _ => true,
    }
}

fn next_delete(j: Job, got: Got) -> (r: Step)
    requires
        j is Delete || j is DeleteAsk || j is DeleteAnswer || j is Deleting || j is Rename
            || j is Deploy,
        work::fits(j.wants(), got),
    ensures
        delete_after(j, got, r),
        r.job.wf(),
{
    match (j, got) {
        (Job::Delete { name, yes }, Got::Users(users)) => match uuid_of_name(&users, &name) {
            Some(uuid) => if yes {
                go(Job::Deleting { name, uuid })
            } else {
                go(Job::DeleteAsk { name, uuid })
            },
            None => missing(&name),
        },
        (Job::DeleteAsk { name, uuid }, Got::Yes(there)) => if there {
            Step {
                lines: note_one(
                    cat3(
                        "Are you sure you want to delete user '",
                        &name,
                        "'? Type the user name to confirm:",
                    ),
                ),
                job: Job::DeleteAnswer { name, uuid },
            }
        } else {
            fail(
                AppError::Config(
                    "Interactive confirmation required. Use --yes to skip.".to_owned(),
                ),
            )
        },
        (Job::DeleteAnswer { name, uuid }, Got::Text(line)) => if same(&trim(&line), &name) {
            go(Job::Deleting { name, uuid })
        } else {
            finish(note_one("Name does not match. Deletion cancelled.".to_owned()))
        },
        (Job::Deleting { name, uuid }, Got::Done) => finish(
            print_one(cat3("User '", &name, "' deleted.")),
        ),
        (Job::Rename { old_name, new_name }, Got::Done) => finish(
            print_two(
                cat5("User renamed: '", &old_name, "' -> '", &new_name, "'"),
                "Note: rename resets traffic stats history for this user.".to_owned(),
            ),
        ),
        (Job::Deploy { token }, Got::Text(m)) => finish(print_one(m)),
        (Job::Deploy { token }, Got::Refused(e)) => fail_xray(e),
        (j, Got::Failed(e)) => fail(e),
        (j, _) => go(Job::Done),
    }
}

// ---- snapshots ----

/// What a snapshot holds.
pub open spec fn contents(s: SnapshotInfo) -> Seq<char> {
    s.tag@ + " (v"@ + s.version@ + ", "@ + decimal::dec(s.users_count as nat) + " users)"@
}

fn contents_text(s: &SnapshotInfo) -> (r: String)
    ensures
        r@ == contents(*s),
{
    let mut r = cat5(
        &s.tag,
        " (v",
        &s.version,
        ", ",
        &u64_text(s.users_count as u64),
    );
    r.append(" users)");
    r
}

/// The tags of snapshots.
pub open spec fn tags(v: Seq<SnapshotInfo>) -> Seq<Seq<char>> {
    Seq::new(v.len(), |i: int| v[i].tag@)
}

/// The snapshots that there are.
pub open spec fn available_lines(v: Seq<SnapshotInfo>) -> Seq<LineV> {
    seq![LineV::Note("Available snapshots:"@)] + Seq::new(
        v.len(),
        |i: int| LineV::Note("  "@ + contents(v[i])),
    )
}

/// The snapshots that there are, and that one is restored.
pub open spec fn restore_lines(v: Seq<SnapshotInfo>, tag: Seq<char>) -> Seq<LineV> {
    available_lines(v) + seq![LineV::Note("Restoring from snapshot ["@ + tag + "]..."@)]
}

fn tags_of(v: &Vec<SnapshotInfo>) -> (r: Vec<String>)
    ensures
        text::texts(r@) == tags(v@),
{
    let mut r = no_texts();
    let mut i: usize = 0;
    while i < v.len()
        invariant
            i <= v@.len(),
            text::texts(r@) =~= tags(v@).take(i as int),
        decreases v.len() - i,
    {
        push_text(&mut r, v[i].tag.clone());
        i += 1;
    }
    assert(text::texts(r@) =~= tags(v@));
    r
}

fn has_tag(v: &Vec<SnapshotInfo>, tag: &str) -> (r: bool)
    ensures
        r == tags(v@).contains(tag@),
{
    let mut i: usize = 0;
    while i < v.len()
        invariant
            i <= v@.len(),
            forall|j: int| 0 <= j < i ==> #[trigger] tags(v@)[j] != tag@,
        decreases v.len() - i,
    {
        if same(&v[i].tag, tag) {
            assert(tags(v@)[i as int] == tag@);
            return true;
        }
        assert(tags(v@)[i as int] != tag@);
        i += 1;
    }
    false
}

fn list_available(v: &Vec<SnapshotInfo>) -> (r: Vec<Line>)
    ensures
        line_views(r@) == available_lines(v@),
{
    let ghost all = available_lines(v@);
    let mut r = note_one("Available snapshots:".to_owned());
    let mut i: usize = 0;
    while i < v.len()
        invariant
            all == available_lines(v@),
            i <= v@.len(),
            line_views(r@) =~= all.take(i + 1),
        decreases v.len() - i,
    {
        assert(all[i + 1] == LineV::Note("  "@ + contents(v@[i as int])));
        note(&mut r, cat2("  ", &contents_text(&v[i])));
        i += 1;
    }
    assert(line_views(r@) =~= all);
    r
}

/// Making, listing and restoring snapshots goes on. Without a tag the last one is restored. What
/// there is to restore is listed first, also where the tag is not among it.
pub open spec fn snapshot_after(j: Job, got: Got, r: Step) -> bool {
    match (j, got) {
        (Job::Snapshot, Got::Snapshot(s)) => done(
            r,
            seq![LineV::Print("Snapshot created: "@ + contents(s))],
        ),
        (Job::Snapshots, Got::Snapshots(v)) => done(r, printed(tables::snapshots_table(v@))),
        (Job::SnapshotRestore { tag }, Got::Snapshots(v)) => if v@.len() == 0 {
            failed_with(r, "no snapshots found"@)
        } else {
            match tag {
                Some(t) => if tags(v@).contains(t@) {
                    line_views(r.lines@) == restore_lines(v@, t@) && (r.job
                        matches Job::SnapshotRestoring { tag: x } && x@ == t@)
                } else {
                    line_views(r.lines@) == available_lines(v@) && (r.job
                        matches Job::Failed { error } && error::is_xray(
                        error,
                        "snapshot '"@ + t@ + "' not found. Available: "@ + text::joined(
                            tags(v@),
                            ", "@,
                        ),
                    ))
                },
                None => line_views(r.lines@) == restore_lines(v@, v@.last().tag@) && (r.job
                    matches Job::SnapshotRestoring { tag: x } && x@ == v@.last().tag@),
            }
        },
        (Job::SnapshotRestoring { tag }, Got::Done) => done(
            r,
            seq![
                LineV::Print(
                    "Restored from snapshot ["@ + tag@ + "]. Container restarted."@,
                ),
            ],
        ),
        (_, Got::Failed(e)) => failed(r, e),
        _ => true,
    }
}

fn next_snapshot(j: Job, got: Got) -> (r: Step)
    requires
        j is Snapshot || j is Snapshots || j is SnapshotRestore || j is SnapshotRestoring,
        work::fits(j.wants(), got),
    ensures
        snapshot_after(j, got, r),
        r.job.wf(),
{
    match (j, got) {
        (Job::Snapshot, Got::Snapshot(s)) => finish(
            print_one(cat2("Snapshot created: ", &contents_text(&s))),
        ),
        (Job::Snapshots, Got::Snapshots(v)) => finish(print_all(list_snapshots(&v))),
        (Job::SnapshotRestore { tag }, Got::Snapshots(v)) => {
            if v.len() == 0 {
                return fail_xray("no snapshots found".to_owned());
            }
            let mut lines = list_available(&v);
            let chosen = match tag {
                Some(t) => {
                    if !has_tag(&v, &t) {
                        let mut m = cat3("snapshot '", &t, "' not found. Available: ");
                        m.append(&join(&tags_of(&v), ", "));
                        return Step { lines, job: Job::Failed { error: AppError::Xray(m) } };
                    }
                    t
                },
                None => v[v.len() - 1].tag.clone(),
            };
            note(&mut lines, cat3("Restoring from snapshot [", &chosen, "]..."));
            assert(line_views(lines@) =~= restore_lines(v@, chosen@));
            Step { lines, job: Job::SnapshotRestoring { tag: chosen } }
        },
        (Job::SnapshotRestoring { tag }, Got::Done) => finish(
            print_one(cat3("Restored from snapshot [", &tag, "]. Container restarted.")),
        ),
        (j, Got::Failed(e)) => fail(e),
        (j, _) => go(Job::Done),
    }
}

/// That the upgrade is done.
pub open spec fn upgraded(u: UpgradeResult) -> Seq<LineV> {
    seq![
        LineV::Print(Seq::empty()),
        LineV::Print("Upgrade complete!"@),
        LineV::Print("  Before:   v"@ + u.old_version@),
        LineV::Print("  After:    v"@ + u.new_version@),
        LineV::Print(
            "  Snapshot: "@ + u.snapshot_tag@ + " (use --snapshot-restore "@ + u.snapshot_tag@
                + " to rollback)"@,
        ),
    ]
}

/// Upgrading goes on.
pub open spec fn upgrade_after(j: Job, got: Got, r: Step) -> bool {
    match (j, got) {
        (Job::Upgrade, Got::Info(info)) => line_views(r.lines@) == seq![
            LineV::Note("Current version: v"@ + info.version@),
        ] && r.job == (Job::UpgradeNewest { version: info.version }),
        (Job::UpgradeNewest { version }, Got::Text(latest)) => if latest@ == version@ {
            done(
                r,
                seq![
                    LineV::Print("Already on latest version v"@ + latest@ + ". Nothing to do."@),
                ],
            )
        } else {
            line_views(r.lines@) == seq![
                LineV::Note("Latest version:  v"@ + latest@),
                LineV::Note(Seq::empty()),
                LineV::Note("Upgrading..."@),
            ] && r.job == Job::Upgrading
        },
        (Job::Upgrading, Got::Upgraded(u)) => done(r, upgraded(u)),
        (_, Got::Failed(e)) => failed(r, e),
        _ => true,
    }
}

fn upgraded_lines(u: &UpgradeResult) -> (r: Vec<Line>)
    ensures
        line_views(r@) == upgraded(*u),
{
    let mut r = print_two(String::new(), "Upgrade complete!".to_owned());
    print(&mut r, cat2("  Before:   v", &u.old_version));
    print(&mut r, cat2("  After:    v", &u.new_version));
    print(
        &mut r,
        cat5(
            "  Snapshot: ",
            &u.snapshot_tag,
            " (use --snapshot-restore ",
            &u.snapshot_tag,
            " to rollback)",
        ),
    );
    assert(line_views(r@) =~= upgraded(*u));
    r
}

fn next_upgrade(j: Job, got: Got) -> (r: Step)
    requires
        j is Upgrade || j is UpgradeNewest || j is Upgrading,
        work::fits(j.wants(), got),
    ensures
        upgrade_after(j, got, r),
        r.job.wf(),
{
    match (j, got) {
        (Job::Upgrade, Got::Info(info)) => Step {
            lines: note_one(cat2("Current version: v", &info.version)),
            job: Job::UpgradeNewest { version: info.version },
        },
        (Job::UpgradeNewest { version }, Got::Text(latest)) => {
            if same(&latest, &version) {
                return finish(
                    print_one(
                        cat3("Already on latest version v", &latest, ". Nothing to do."),
                    ),
                );
            }
            let mut lines = note_one(cat2("Latest version:  v", &latest));
            note(&mut lines, String::new());
            note(&mut lines, "Upgrading...".to_owned());
            assert(line_views(lines@) =~= seq![
                LineV::Note("Latest version:  v"@ + latest@),
                LineV::Note(Seq::empty()),
                LineV::Note("Upgrading..."@),
            ]);
            Step { lines, job: Job::Upgrading }
        },
        (Job::Upgrading, Got::Upgraded(u)) => finish(upgraded_lines(&u)),
        (j, Got::Failed(e)) => fail(e),
        (j, _) => go(Job::Done),
    }
}

/// How a command goes on with what it needed.
pub open spec fn after(j: Job, got: Got, r: Step) -> bool {
    match j {
        Job::List => list_after(j, got, r),
        Job::ListTraffic { .. } => list_after(j, got, r),
        Job::Check => list_after(j, got, r),
        Job::CheckUsers => list_after(j, got, r),
        Job::CheckInfo { .. } => list_after(j, got, r),
        Job::CheckProbe { .. } => list_after(j, got, r),
        Job::Url { .. } => url_after(j, got, r),
        Job::UrlBridge { .. } => url_after(j, got, r),
        Job::UrlDirect { .. } => url_after(j, got, r),
        Job::Qr { .. } => url_after(j, got, r),
        Job::QrUrl { .. } => url_after(j, got, r),
        Job::QrDraw { .. } => url_after(j, got, r),
        Job::Vpn { .. } => url_after(j, got, r),
        Job::VpnBridge { .. } => url_after(j, got, r),
        Job::VpnDirect { .. } => url_after(j, got, r),
        Job::Online => info_after(j, got, r),
        Job::OnlineCounts { .. } => info_after(j, got, r),
        Job::OnlineIps { .. } => info_after(j, got, r),
        Job::Info => info_after(j, got, r),
        Job::InfoUsers { .. } => info_after(j, got, r),
        Job::InfoProbe { .. } => info_after(j, got, r),
        Job::InfoUptime { .. } => info_after(j, got, r),
        Job::InfoLatest { .. } => info_after(j, got, r),
        Job::Bot => backup_after(j, got, r),
        Job::Backup => backup_after(j, got, r),
        Job::Restore { .. } => backup_after(j, got, r),
        Job::Restoring { .. } => backup_after(j, got, r),
        Job::Add { .. } => add_after(j, got, r),
        Job::AddTable { .. } => add_after(j, got, r),
        Job::AddApi { .. } => add_after(j, got, r),
        Job::Adding { .. } => add_after(j, got, r),
        Job::AddUrl { .. } => add_after(j, got, r),
        Job::Delete { .. } => delete_after(j, got, r),
        Job::DeleteAsk { .. } => delete_after(j, got, r),
        Job::DeleteAnswer { .. } => delete_after(j, got, r),
        Job::Deleting { .. } => delete_after(j, got, r),
        Job::Rename { .. } => delete_after(j, got, r),
        Job::Deploy { .. } => delete_after(j, got, r),
        Job::Snapshot => snapshot_after(j, got, r),
        Job::Snapshots => snapshot_after(j, got, r),
        Job::SnapshotRestore { .. } => snapshot_after(j, got, r),
        Job::SnapshotRestoring { .. } => snapshot_after(j, got, r),
        Job::Upgrade => upgrade_after(j, got, r),
        Job::UpgradeNewest { .. } => upgrade_after(j, got, r),
        Job::Upgrading => upgrade_after(j, got, r),
        Job::Done => on(r, j),
        Job::Failed { .. } => on(r, j),
    }
}

impl Job {
    /// Goes on with what the command needed.
    pub fn next(self, got: Got) -> (r: Step)
        requires
            self.wf(),
            work::fits(self.wants(), got),
        ensures
            after(self, got, r),
            r.job.wf(),
    {
        match self {
            Job::List => next_list(self, got),
            Job::ListTraffic { .. } => next_list(self, got),
            Job::Check => next_list(self, got),
            Job::CheckUsers => next_list(self, got),
            Job::CheckInfo { .. } => next_list(self, got),
            Job::CheckProbe { .. } => next_list(self, got),
            Job::Url { .. } => next_url(self, got),
            Job::UrlBridge { .. } => next_url(self, got),
            Job::UrlDirect { .. } => next_url(self, got),
            Job::Qr { .. } => next_url(self, got),
            Job::QrUrl { .. } => next_url(self, got),
            Job::QrDraw { .. } => next_url(self, got),
            Job::Vpn { .. } => next_url(self, got),
            Job::VpnBridge { .. } => next_url(self, got),
            Job::VpnDirect { .. } => next_url(self, got),
            Job::Online => next_info(self, got),
            Job::OnlineCounts { .. } => next_info(self, got),
            Job::OnlineIps { .. } => next_info(self, got),
            Job::Info => next_info(self, got),
            Job::InfoUsers { .. } => next_info(self, got),
            Job::InfoProbe { .. } => next_info(self, got),
            Job::InfoUptime { .. } => next_info(self, got),
            Job::InfoLatest { .. } => next_info(self, got),
            Job::Bot => next_backup(self, got),
            Job::Backup => next_backup(self, got),
            Job::Restore { .. } => next_backup(self, got),
            Job::Restoring { .. } => next_backup(self, got),
            Job::Add { .. } => next_add(self, got),
            Job::AddTable { .. } => next_add(self, got),
            Job::AddApi { .. } => next_add(self, got),
            Job::Adding { .. } => next_add(self, got),
            Job::AddUrl { .. } => next_add(self, got),
            Job::Delete { .. } => next_delete(self, got),
            Job::DeleteAsk { .. } => next_delete(self, got),
            Job::DeleteAnswer { .. } => next_delete(self, got),
            Job::Deleting { .. } => next_delete(self, got),
            Job::Rename { .. } => next_delete(self, got),
            Job::Deploy { .. } => next_delete(self, got),
            Job::Snapshot => next_snapshot(self, got),
            Job::Snapshots => next_snapshot(self, got),
            Job::SnapshotRestore { .. } => next_snapshot(self, got),
            Job::SnapshotRestoring { .. } => next_snapshot(self, got),
            Job::Upgrade => next_upgrade(self, got),
            Job::UpgradeNewest { .. } => next_upgrade(self, got),
            Job::Upgrading => next_upgrade(self, got),
            Job::Done => go(self),
            Job::Failed { .. } => go(self),
        }
    }
}

} // verus!
