//! Laws on what the commands ask for and print.

use crate::app::keys::is_valid_token;
use crate::backend::{bridge_url_params, BridgeParams};
use crate::cli::job;
use crate::cli::job::{
    cli_add_user, cli_backup, cli_check_server, cli_deploy_bot, cli_snapshot, cli_telegram_bot,
    connecting_line, Job, Line, Step,
};
use crate::cli::tables::{
    list_online, list_snapshots, list_users, show_check, show_server, who_is_online,
};
use crate::config::Config;
use crate::decimal;
use crate::error::AppError;
use crate::text;
use crate::work::{Got, Need, SnapshotInfo, UpgradeResult};
use crate::xray::client::ServerInfo;
use crate::xray::types::{TrafficStats, VlessUrlParams, XrayUser};
use crate::xray::urls::generate_amnezia_url;
use vstd::prelude::*;

verus! {

/// The line is a result.
pub open spec fn is_result(l: Line, t: Seq<char>) -> bool {
    l matches Line::Print(x) && x@ == t
}

/// The line is a remark.
pub open spec fn is_remark(l: Line, t: Seq<char>) -> bool {
    l matches Line::Note(x) && x@ == t
}

/// The command ends and prints these lines.
pub open spec fn prints_all(r: Step, v: Seq<String>) -> bool {
    r.job is Done && r.lines@.len() == v.len() && forall|i: int|
        0 <= i < v.len() ==> is_result(#[trigger] r.lines@[i], v[i]@)
}

proof fn lemma_lines(r: Step)
    ensures
        job::line_views(r.lines@).len() == r.lines@.len(),
        forall|i: int|
            0 <= i < r.lines@.len() ==> (#[trigger] r.lines@[i])@ == job::line_views(r.lines@)[i],
{
}

proof fn lemma_prints_all(r: Step, v: Seq<String>)
    requires
        job::done(r, job::printed(text::texts(v))),
    ensures
        prints_all(r, v),
{
    lemma_lines(r);
    assert(job::printed(text::texts(v)).len() == v.len());
    assert forall|i: int| 0 <= i < v.len() implies is_result(#[trigger] r.lines@[i], v[i]@) by {
        assert(job::printed(text::texts(v))[i] == job::LineV::Print(text::texts(v)[i]));
    }
}

// ---- tables ----

/// **A list is printed as it was made**: of the users with the traffic that was found for them, of the
/// connections, of the snapshots, and of what is known of the server.
pub proof fn law_lists_are_printed(
    users: Vec<XrayUser>,
    t: Vec<(Option<TrafficStats>, Option<u32>)>,
    counts: Vec<Option<u32>>,
    ips: Vec<Option<Vec<String>>>,
    snapshots: Vec<SnapshotInfo>,
    a: Vec<String>,
    b: Vec<String>,
    c: Vec<String>,
    p: Step,
    q: Step,
    s: Step,
)
    requires
        t@.len() == users@.len(),
        counts@.len() == users@.len(),
        call_ensures(list_users, (&users, &t), a),
        call_ensures(list_online, (&users, &counts, &ips), b),
        call_ensures(list_snapshots, (&snapshots,), c),
        call_ensures(Job::next, (Job::ListTraffic { users }, Got::Traffic(t)), p),
        call_ensures(Job::next, (Job::OnlineIps { users, counts }, Got::Ips(ips)), q),
        call_ensures(Job::next, (Job::Snapshots, Got::Snapshots(snapshots)), s),
    ensures
        prints_all(p, a@),
        prints_all(q, b@),
        prints_all(s, c@),
{
    lemma_prints_all(p, a@);
    lemma_prints_all(q, b@);
    lemma_prints_all(s, c@);
}

/// **Connections are asked for in order**: how many each user has, and then the addresses of those that
/// are online.
pub proof fn law_connections_are_asked_for(
    users: Vec<XrayUser>,
    counts: Vec<Option<u32>>,
    online: Vec<String>,
    a: Step,
    b: Step,
    n: Option<Need>,
)
    requires
        users@.len() > 0,
        counts@.len() == users@.len(),
        call_ensures(Job::next, (Job::Online, Got::Users(users)), a),
        call_ensures(Job::next, (a.job, Got::Counts(counts)), b),
        call_ensures(who_is_online, (&users, &counts), online),
        call_ensures(Job::need, (&b.job,), n),
    ensures
        a.job == (Job::OnlineCounts { users }),
        b.job == (Job::OnlineIps { users, counts }),
        n matches Some(Need::Ips(v)) && v@.len() == online@.len() && forall|i: int|
            0 <= i < v@.len() ==> (#[trigger] v@[i])@ == online@[i]@,
{
    let v = n->0->Ips_0;
    assert(text::texts(v@).len() == v@.len());
    assert(text::texts(online@).len() == online@.len());
    assert forall|i: int| 0 <= i < v@.len() implies (#[trigger] v@[i])@ == online@[i]@ by {
        assert(text::texts(v@)[i] == v@[i]@);
        assert(text::texts(online@)[i] == online@[i]@);
    }
}

/// **What is known of the server is gathered and printed**: its version and traffic, how many users
/// it has, whether its statistics can be had, how long it runs, and the newest version.
pub proof fn law_server_is_printed(
    info: ServerInfo,
    users: Vec<XrayUser>,
    n: usize,
    up: bool,
    e: AppError,
    uptime: String,
    time: &str,
    latest: Option<String>,
    shown: Vec<String>,
    a: Step,
    b: Step,
    c: Step,
    d: Step,
    f: Step,
    g: Step,
)
    requires
        time@ == uptime@,
        n == users@.len(),
        call_ensures(Job::next, (Job::Info, Got::Info(info)), a),
        call_ensures(Job::next, (a.job, Got::Users(users)), b),
        call_ensures(Job::next, (b.job, Got::Yes(up)), c),
        call_ensures(Job::next, (b.job, Got::Failed(e)), g),
        call_ensures(Job::next, (c.job, Got::Text(uptime)), d),
        call_ensures(show_server, (&info, n, up, time, &latest), shown),
        call_ensures(Job::next, (d.job, Got::Maybe(latest)), f),
    ensures
        g.job == (Job::InfoUptime { info, users: n, api_ok: false }),
        prints_all(f, shown@),
{
    lemma_prints_all(f, shown@);
}

/// **A check says what was found**, and that the API was enabled, where it had to be.
pub proof fn law_check_is_printed(
    modified: bool,
    users: Vec<XrayUser>,
    n: usize,
    info: ServerInfo,
    version: &str,
    up: bool,
    e: AppError,
    yes: String,
    no: String,
    a: Step,
    b: Step,
    c: Step,
    d: Step,
    f: Step,
)
    requires
        n == users@.len(),
        version@ == info.version@,
        call_ensures(show_check, (up, n, version), yes),
        call_ensures(show_check, (false, n, version), no),
        call_ensures(Job::next, (Job::Check, Got::Yes(modified)), a),
        call_ensures(Job::next, (Job::CheckUsers, Got::Users(users)), b),
        call_ensures(Job::next, (b.job, Got::Info(info)), c),
        call_ensures(Job::next, (c.job, Got::Yes(up)), d),
        call_ensures(Job::next, (c.job, Got::Failed(e)), f),
    ensures
        a.job is CheckUsers && a.lines@.len() == 1 && is_remark(
            a.lines@[0],
            if modified {
                "API was not configured — enabled and container restarted."@
            } else {
                "API already configured."@
            },
        ),
        d.job is Done && d.lines@.len() == 1 && is_result(d.lines@[0], yes@),
        f.job is Done && f.lines@.len() == 1 && is_result(f.lines@[0], no@),
{
    lemma_lines(a);
    lemma_lines(d);
    lemma_lines(f);
}

// ---- what is asked for ----

/// **Each command asks for its own.**
pub proof fn law_commands_ask_for_what_they_need(j: Job, n: Option<Need>)
    requires
        j.wf(),
        call_ensures(Job::need, (&j,), n),
    ensures
        j is Check || j is Bot || j is AddApi ==> n == Some(Need::EnsureApi),
        j is CheckUsers || j is InfoUsers ==> n == Some(Need::Users),
        j is CheckInfo || j is Info || j is Upgrade ==> n == Some(Need::ServerInfo),
        j is CheckProbe || j is InfoProbe ==> n == Some(Need::Probe),
        j is InfoUptime ==> n == Some(Need::Uptime),
        j is InfoLatest ==> n == Some(Need::Latest),
        j is Backup ==> n == Some(Need::Backup),
        j is Add ==> n == Some(Need::Config),
        j is AddTable ==> n == Some(Need::Table),
        j is Snapshot ==> n == Some(Need::CreateSnapshot),
        j is Snapshots ==> n == Some(Need::Snapshots),
        j is UpgradeNewest ==> n == Some(Need::Newest),
{
}

/// **A command that cannot get what it needs fails with that error.**
pub proof fn law_commands_fail_with_the_error(j: Job, e: AppError, r: Step)
    requires
        j is List || j is Check || j is CheckUsers || j is CheckInfo || j is Url || j is UrlBridge
            || j is UrlDirect || j is Qr || j is QrUrl || j is Vpn || j is VpnBridge || j
            is VpnDirect || j is Online || j is Info || j is InfoUsers || j is Backup || j
            is Restore || j is Restoring || j is Add || j is AddTable || j is AddApi || j
            is Adding || j is Delete || j is DeleteAnswer || j is Deleting || j is Rename || j
            is Snapshot || j is Snapshots || j is SnapshotRestore || j is SnapshotRestoring || j
            is Upgrade || j is UpgradeNewest || j is Upgrading,
        call_ensures(Job::next, (j, Got::Failed(e)), r),
    ensures
        r.job == (Job::Failed { error: e }),
        r.lines@.len() == 0,
{
}

// ---- configurations and QR codes ----

/// **Both configurations are those of the user**: the one over the bridge is made of what the bridge
/// says and of the id of the user, and the direct one of what the server says.
pub proof fn law_configurations_are_printed(
    uuid: String,
    id: &str,
    b: BridgeParams,
    p: VlessUrlParams,
    over: VlessUrlParams,
    x: String,
    y: String,
    r: Step,
    s: Step,
)
    requires
        id@ == uuid@,
        call_ensures(bridge_url_params, (b, id), over),
        over.uuid == uuid,
        call_ensures(generate_amnezia_url, (&over,), x),
        call_ensures(generate_amnezia_url, (&p,), y),
        call_ensures(Job::next, (Job::VpnBridge { uuid }, Got::Bridge(b)), r),
        call_ensures(Job::next, (r.job, Got::Params(p)), s),
    ensures
        r.job matches Job::VpnDirect { uuid: u, .. } && u@ == uuid@,
        s.job is Done && s.lines@.len() == 2 && is_result(s.lines@[0], "Bridge: "@ + x@)
            && is_result(s.lines@[1], "Direct: "@ + y@),
{
    lemma_lines(s);
    let made = VlessUrlParams {
        uuid,
        host: b.host,
        port: b.port,
        sni: b.sni,
        public_key: b.public_key,
        short_id: b.short_id,
        path: b.path,
    };
    assert(made == over);
}

/// **A QR code is printed line by line, and then the name and the URL that it is of.**
pub proof fn law_qr_code_is_printed(
    name: String,
    url: String,
    v: Vec<String>,
    e: String,
    i: int,
    r: Step,
    s: Step,
)
    requires
        call_ensures(Job::next, (Job::QrDraw { name, url }, Got::Lines(v)), r),
        call_ensures(Job::next, (Job::QrDraw { name, url }, Got::Refused(e)), s),
    ensures
        r.job is Done,
        r.lines@.len() == v@.len() + 3,
        0 <= i < v@.len() ==> is_result(r.lines@[i], v@[i]@),
        is_result(r.lines@[v@.len() as int], Seq::empty()),
        is_result(r.lines@[v@.len() + 1int], name@),
        is_result(r.lines@[v@.len() + 2int], url@),
        s.job matches Job::Failed { error: AppError::Xray(m) } && m@ == "QR generation failed: "@
            + e@,
{
    lemma_lines(r);
    let all = job::qr_lines(text::texts(v@), name@, url@);
    let n = v@.len() as int;
    assert(all.len() == n + 3);
    assert(r.lines@[n]@ == all[n] && r.lines@[n + 1]@ == all[n + 1] && r.lines@[n + 2]@ == all[n
        + 2]);
    if 0 <= i < n {
        assert(all[i] == job::LineV::Print(text::texts(v@)[i]));
        assert(r.lines@[i]@ == all[i]);
    }
}

// ---- backups and snapshots ----

/// **The backups are listed, the newest marked**, before one is restored, and its time is told.
pub proof fn law_backups_are_listed(
    timestamp: Option<String>,
    v: Vec<String>,
    i: int,
    ts: String,
    r: Step,
    s: Step,
)
    requires
        call_ensures(Job::next, (Job::Restore { timestamp }, Got::Lines(v)), r),
        call_ensures(Job::next, (Job::Restoring { timestamp }, Got::Text(ts)), s),
    ensures
        v@.len() == 0 ==> (r.job matches Job::Failed { error: AppError::Xray(m) } && m@
            == "no timestamped backups found"@),
        v@.len() > 0 ==> r.job == (Job::Restoring { timestamp }) && r.lines@.len() == v@.len() + 1
            && is_remark(r.lines@[0], "Available backups:"@) && is_remark(
            r.lines@[1],
            "  "@ + v@[0]@ + " (latest)"@,
        ),
        0 < i < v@.len() ==> is_remark(r.lines@[i + 1], "  "@ + v@[i]@),
        s.job is Done && s.lines@.len() == 4 && is_result(
            s.lines@[0],
            "Restored from backup "@ + ts@ + ":"@,
        ) && is_result(s.lines@[1], "  server.json."@ + ts@ + ".bak -> server.json"@) && is_result(
            s.lines@[2],
            "  clientsTable."@ + ts@ + ".bak -> clientsTable"@,
        ) && is_result(s.lines@[3], "Container restarted."@),
{
    lemma_lines(r);
    lemma_lines(s);
    if v@.len() > 0 {
        let all = job::backup_lines(text::texts(v@));
        assert(text::texts(v@)[0] == v@[0]@);
        assert(all[1] == r.lines@[1]@);
        assert(all[0] == r.lines@[0]@);
        if 0 < i < v@.len() {
            assert(text::texts(v@)[i] == v@[i]@);
            assert(all[i + 1] == r.lines@[i + 1]@);
            assert("  "@ + v@[i]@ + Seq::<char>::empty() =~= "  "@ + v@[i]@);
        }
    }
}

/// **A snapshot is told with its version and its users**, where it is made and where it is listed before
/// one is restored.
pub proof fn law_snapshots_are_told(
    info: SnapshotInfo,
    v: Vec<SnapshotInfo>,
    tag: String,
    i: int,
    made: Step,
    r: Step,
)
    requires
        call_ensures(Job::next, (Job::Snapshot, Got::Snapshot(info)), made),
        call_ensures(
            Job::next,
            (Job::SnapshotRestore { tag: Some(tag) }, Got::Snapshots(v)),
            r,
        ),
        0 <= i < v@.len(),
    ensures
        made.job is Done && made.lines@.len() == 1 && is_result(
            made.lines@[0],
            "Snapshot created: "@ + (info.tag@ + " (v"@ + info.version@ + ", "@ + decimal::dec(
                info.users_count as nat,
            ) + " users)"@),
        ),
        is_remark(r.lines@[0], "Available snapshots:"@),
        is_remark(
            r.lines@[i + 1],
            "  "@ + (v@[i].tag@ + " (v"@ + v@[i].version@ + ", "@ + decimal::dec(
                v@[i].users_count as nat,
            ) + " users)"@),
        ),
        r.job is SnapshotRestoring ==> r.lines@.len() == v@.len() + 2 && is_remark(
            r.lines@[v@.len() + 1int],
            "Restoring from snapshot ["@ + tag@ + "]..."@,
        ),
{
    lemma_lines(made);
    lemma_lines(r);
    let all = job::available_lines(v@);
    let more = job::restore_lines(v@, tag@);
    assert(all[i + 1] == job::LineV::Note("  "@ + job::contents(v@[i])));
    assert(more[i + 1] == all[i + 1]);
    assert(more[0] == all[0]);
    assert(r.lines@[i + 1]@ == all[i + 1]);
    assert(r.lines@[0]@ == all[0]);
    if r.job is SnapshotRestoring {
        assert(r.lines@[v@.len() + 1int]@ == more[v@.len() + 1int]);
    }
}

/// **An upgrade tells both versions and the snapshot to go back to.**
pub proof fn law_upgrade_is_printed(
    info: ServerInfo,
    u: UpgradeResult,
    version: String,
    latest: String,
    a: Step,
    b: Step,
    c: Step,
)
    requires
        call_ensures(Job::next, (Job::Upgrade, Got::Info(info)), a),
        call_ensures(Job::next, (Job::UpgradeNewest { version }, Got::Text(latest)), b),
        call_ensures(Job::next, (Job::Upgrading, Got::Upgraded(u)), c),
    ensures
        a.lines@.len() == 1 && is_remark(a.lines@[0], "Current version: v"@ + info.version@) && (
        a.job matches Job::UpgradeNewest { version: x } && x@ == info.version@),
        latest@ == version@ ==> b.lines@.len() == 1 && is_result(
            b.lines@[0],
            "Already on latest version v"@ + latest@ + ". Nothing to do."@,
        ),
        latest@ != version@ ==> b.lines@.len() == 3 && is_remark(
            b.lines@[0],
            "Latest version:  v"@ + latest@,
        ),
        c.job is Done && c.lines@.len() == 5 && is_result(
            c.lines@[2],
            "  Before:   v"@ + u.old_version@,
        ) && is_result(c.lines@[3], "  After:    v"@ + u.new_version@) && is_result(
            c.lines@[4],
            "  Snapshot: "@ + u.snapshot_tag@ + " (use --snapshot-restore "@ + u.snapshot_tag@
                + " to rollback)"@,
        ),
{
    lemma_lines(a);
    lemma_lines(b);
    lemma_lines(c);
}

// ---- users ----

/// **A deletion is asked about where somebody can answer**, and refused elsewhere; it goes on with the
/// user that was found.
pub proof fn law_deletion_is_asked_about(
    name: String,
    uuid: String,
    there: bool,
    line: String,
    a: Step,
    b: Step,
)
    requires
        call_ensures(Job::next, (Job::DeleteAsk { name, uuid }, Got::Yes(there)), a),
        call_ensures(Job::next, (Job::DeleteAnswer { name, uuid }, Got::Text(line)), b),
    ensures
        there ==> a.job == (Job::DeleteAnswer { name, uuid }) && a.lines@.len() == 1 && is_remark(
            a.lines@[0],
            "Are you sure you want to delete user '"@ + name@
                + "'? Type the user name to confirm:"@,
        ),
        !there ==> (a.job matches Job::Failed { error: AppError::Config(m) } && m@
            == "Interactive confirmation required. Use --yes to skip."@),
        text::trimmed(line@) != name@ ==> b.job is Done && b.lines@.len() == 1 && is_remark(
            b.lines@[0],
            "Name does not match. Deletion cancelled."@,
        ),
{
    lemma_lines(a);
    lemma_lines(b);
}

/// **A user that was added stays so where its URL could not be made**, which is only remarked; the API
/// is remarked where it had to be enabled.
pub proof fn law_added_user_stays(
    name: String,
    uuid: String,
    modified: bool,
    e: AppError,
    a: Step,
    b: Step,
    bot: Step,
)
    requires
        call_ensures(Job::next, (Job::AddApi { name }, Got::Yes(modified)), a),
        call_ensures(Job::next, (Job::AddUrl { uuid }, Got::Failed(e)), b),
        call_ensures(Job::next, (Job::Bot, Got::Failed(e)), bot),
    ensures
        a.job == (Job::Adding { name }),
        modified ==> a.lines@.len() == 1 && is_remark(
            a.lines@[0],
            "API was not configured — enabled and container restarted."@,
        ),
        !modified ==> a.lines@.len() == 0,
        b.job is Done && b.lines@.len() == 1 && is_remark(
            b.lines@[0],
            "Warning: bridge URL generation failed: "@ + e.text() + ". Use --user-url to retry."@,
        ),
        bot.job matches Job::Failed { error: AppError::Xray(m) } && m@
            == "failed to ensure Xray API is enabled (bot cannot operate without it): "@
            + e.text(),
{
    lemma_lines(a);
    lemma_lines(b);
}

// ---- beginning ----

/// **Each command begins with its own**, and says so.
pub proof fn law_commands_begin(
    name: &str,
    token: &str,
    valid: bool,
    check: Step,
    bot: Step,
    backup: Step,
    snapshot: Step,
    add: Step,
    deploy: Step,
)
    requires
        call_ensures(cli_check_server, (), check),
        call_ensures(cli_telegram_bot, (), bot),
        call_ensures(cli_backup, (), backup),
        call_ensures(cli_snapshot, (), snapshot),
        call_ensures(cli_add_user, (name,), add),
        call_ensures(is_valid_token, (token,), valid),
        call_ensures(cli_deploy_bot, (token,), deploy),
    ensures
        check.job is Check && check.lines@.len() == 1 && is_remark(
            check.lines@[0],
            "Checking API configuration..."@,
        ),
        bot.job is Bot && bot.lines@.len() == 1 && is_remark(
            bot.lines@[0],
            "Checking Xray API configuration..."@,
        ),
        backup.job is Backup && backup.lines@.len() == 1 && is_remark(
            backup.lines@[0],
            "Creating timestamped backup..."@,
        ),
        snapshot.job is Snapshot && snapshot.lines@.len() == 1 && is_remark(
            snapshot.lines@[0],
            "Creating snapshot..."@,
        ),
        text::trimmed(name@).len() > 0 ==> (add.job matches Job::Add { name: n } && n@ == name@),
        text::trimmed(name@).len() == 0 ==> (add.job matches Job::Failed {
            error: AppError::Xray(m),
        } && m@ == "user name cannot be empty"@),
        valid ==> (deploy.job matches Job::Deploy { token: t } && t@ == token@),
        !valid ==> (deploy.job matches Job::Failed { error: AppError::Config(m) } && m@
            == "Invalid token format (expected <digits>:<secret>)"@),
{
    lemma_lines(check);
    lemma_lines(bot);
    lemma_lines(backup);
    lemma_lines(snapshot);
}

/// **Where a connection goes is said before it is made**: the alias, or the host where there is none.
pub proof fn law_connection_is_announced(config: Config, user: &str, port: u16, r: String)
    requires
        call_ensures(connecting_line, (&config, user, port), r),
    ensures
        config.ssh_host matches Some(h) ==> r@ == "Connecting to "@ + user@ + "@"@ + h@ + ":"@
            + decimal::dec(port as nat) + "..."@,
        config.ssh_host is None ==> (config.host matches Some(h) ==> r@ == "Connecting to "@ + user@
            + "@"@ + h@ + ":"@ + decimal::dec(port as nat) + "..."@),
{
}

} // verus!
