//! Laws of the command line.

use crate::cli::job;
use crate::cli::job::{Job, Line, Step};
use crate::text;
use crate::work;
use crate::work::{Got, Need, NeedV, SnapshotInfo};
use crate::xray::table;
use crate::xray::table::ClientsTable;
use crate::xray::types::{ServerConfig, XrayUser};
use vstd::prelude::*;

verus! {

/// **A user is deleted only after somebody typed its name, or was told not to ask.** The step
/// before a deletion is one of these two, and both delete the user that was named.
pub proof fn law_deletion_is_confirmed(j: Job, got: Got, r: Step)
    requires
        j.wf(),
        work::fits(j.wants(), got),
        job::after(j, got, r),
    ensures
        r.job matches Job::Deleting { name, .. } ==> match (j, got) {
            (Job::Delete { name: n, yes }, Got::Users(_)) => yes && n == name,
            (Job::DeleteAnswer { name: n, .. }, Got::Text(line)) => n == name && text::trimmed(
                line@,
            ) == name@,
            _ => false,
        },
        r.job.wants() is Some && r.job.wants()->0 is RemoveUser ==> r.job is Deleting,
{
    lemma_deleting(j, got, r);
}

proof fn lemma_deleting(j: Job, got: Got, r: Step)
    requires
        work::fits(j.wants(), got),
        job::after(j, got, r),
    ensures
        r.job is Deleting ==> j is Delete || j is DeleteAnswer,
{
}

/// **A name that is taken is refused before anything is changed.** Until both documents were read
/// and do not hold the name, adding a user asks only for them.
pub proof fn law_taken_name_changes_nothing(j: Job, got: Got, r: Step)
    requires
        j is Add || j is AddTable,
        work::fits(j.wants(), got),
        job::after(j, got, r),
    ensures
        j.wants() == Some(NeedV::Config) || j.wants() == Some(NeedV::Table),
        j is Add ==> r.job is AddTable || r.job is Failed,
        (j matches Job::AddTable { taken, .. } && taken) ==> r.job is Failed,
        (j matches Job::AddTable { name, .. } && got matches Got::Table(t) && exists|i: int|
            0 <= i < t@.len() && (#[trigger] t@[i]).name == name@) ==> r.job is Failed,
{
}

/// How many steps a command can still take.
pub open spec fn steps_left(j: Job) -> nat {
    match j {
        Job::List => 2,
        Job::ListTraffic { .. } => 1,
        Job::Check => 4,
        Job::CheckUsers => 3,
        Job::CheckInfo { .. } => 2,
        Job::CheckProbe { .. } => 1,
        Job::Url { .. } => 3,
        Job::UrlBridge { .. } => 2,
        Job::UrlDirect { .. } => 1,
        Job::Qr { .. } => 3,
        Job::QrUrl { .. } => 2,
        Job::QrDraw { .. } => 1,
        Job::Vpn { .. } => 3,
        Job::VpnBridge { .. } => 2,
        Job::VpnDirect { .. } => 1,
        Job::Online => 3,
        Job::OnlineCounts { .. } => 2,
        Job::OnlineIps { .. } => 1,
        Job::Info => 5,
        Job::InfoUsers { .. } => 4,
        Job::InfoProbe { .. } => 3,
        Job::InfoUptime { .. } => 2,
        Job::InfoLatest { .. } => 1,
        Job::Bot => 1,
        Job::Backup => 1,
        Job::Restore { .. } => 2,
        Job::Restoring { .. } => 1,
        Job::Add { .. } => 5,
        Job::AddTable { .. } => 4,
        Job::AddApi { .. } => 3,
        Job::Adding { .. } => 2,
        Job::AddUrl { .. } => 1,
        Job::Delete { .. } => 4,
        Job::DeleteAsk { .. } => 3,
        Job::DeleteAnswer { .. } => 2,
        Job::Deleting { .. } => 1,
        Job::Rename { .. } => 1,
        Job::Deploy { .. } => 1,
        Job::Snapshot => 1,
        Job::Snapshots => 1,
        Job::SnapshotRestore { .. } => 2,
        Job::SnapshotRestoring { .. } => 1,
        Job::Upgrade => 3,
        Job::UpgradeNewest { .. } => 2,
        Job::Upgrading => 1,
        Job::Done => 0,
        Job::Failed { .. } => 0,
    }
}

/// **Every command ends.** Each answer leaves fewer steps, whatever it is.
pub proof fn law_command_ends(j: Job, got: Got, r: Step)
    requires
        work::fits(j.wants(), got),
        job::after(j, got, r),
    ensures
        steps_left(r.job) < steps_left(j),
        steps_left(j) == 0 <==> j.wants() is None,
{
}

// ---- whom a command is about ----

/// **A command is about the user that was named.** The URLs, the QR code, the configuration and the
/// deletion go on with the id of the first user that has the name that was given, and fail where no
/// user has it. A deletion goes on without a question only where none was to be asked.
pub proof fn law_command_is_about_the_named_user(j: Job, users: Vec<XrayUser>, r: Step)
    requires
        j is Url || j is Qr || j is Vpn || j is Delete,
        call_ensures(Job::next, (j, Got::Users(users)), r),
    ensures
        match (j, r.job) {
            (Job::Url { name }, Job::UrlBridge { uuid }) => work::is_id_of(
                users@,
                name@,
                uuid@,
            ),
            (Job::Qr { name }, Job::QrUrl { name: n, uuid }) => n == name && work::is_id_of(
                users@,
                name@,
                uuid@,
            ),
            (Job::Vpn { name }, Job::VpnBridge { uuid }) => work::is_id_of(users@, name@, uuid@),
            (Job::Delete { name, yes }, Job::Deleting { name: n, uuid }) => yes && n == name
                && work::is_id_of(users@, name@, uuid@),
            (Job::Delete { name, yes }, Job::DeleteAsk { name: n, uuid }) => !yes && n == name
                && work::is_id_of(users@, name@, uuid@),
            (Job::Url { name }, Job::Failed { .. }) => nobody(users@, name@),
            (Job::Qr { name }, Job::Failed { .. }) => nobody(users@, name@),
            (Job::Vpn { name }, Job::Failed { .. }) => nobody(users@, name@),
            (Job::Delete { name, .. }, Job::Failed { .. }) => nobody(users@, name@),
            _ => false,
        },
{
    match j {
        Job::Url { name } => work::lemma_named(users@, name@),
        Job::Qr { name } => work::lemma_named(users@, name@),
        Job::Vpn { name } => work::lemma_named(users@, name@),
        Job::Delete { name, .. } => work::lemma_named(users@, name@),
        _ => {},
    }
}

/// No user has that name.
pub open spec fn nobody(users: Seq<XrayUser>, name: Seq<char>) -> bool {
    forall|j: int| 0 <= j < users.len() ==> (#[trigger] users[j]).name@ != name
}

/// **What a command asks for is about its own user.** The URLs, the removal and the renaming are
/// asked for with the id or the names that the command goes on with; traffic and connections are
/// asked for by the emails of its users; a backup, a snapshot and a token are those that were given.
pub proof fn law_command_asks_for_its_own_user(j: Job, n: Option<Need>)
    requires
        j.wf(),
        call_ensures(Job::need, (&j,), n),
    ensures
        match j {
            Job::ListTraffic { users } => n matches Some(Need::Traffic(v)) && v@.len()
                == users@.len() && forall|i: int|
                0 <= i < v@.len() ==> (#[trigger] v@[i])@ == users@[i].email@,
            Job::OnlineCounts { users } => n matches Some(Need::Counts(v)) && v@.len()
                == users@.len() && forall|i: int|
                0 <= i < v@.len() ==> (#[trigger] v@[i])@ == users@[i].email@,
            Job::UrlBridge { uuid } => n matches Some(Need::BridgeUrl(x)) && x@ == uuid@,
            Job::UrlDirect { uuid, .. } => n matches Some(Need::DirectUrl(x)) && x@ == uuid@,
            Job::QrUrl { uuid, .. } => n matches Some(Need::ServerUrl(x)) && x@ == uuid@,
            Job::QrDraw { url, .. } => n matches Some(Need::QrLines(x)) && x@ == url@,
            Job::VpnBridge { .. } => n matches Some(Need::BridgeParams),
            Job::VpnDirect { uuid, .. } => n matches Some(Need::DirectParams(x)) && x@ == uuid@,
            Job::Restoring { timestamp } => n matches Some(Need::RestoreBackup(x)) && text::opt_text(
                x,
            ) == text::opt_text(timestamp),
            Job::Adding { name } => n matches Some(Need::AddUser(x)) && x@ == name@,
            Job::AddUrl { uuid } => n matches Some(Need::BridgeUrl(x)) && x@ == uuid@,
            Job::Deleting { uuid, .. } => n matches Some(Need::RemoveUser(x)) && x@ == uuid@,
            Job::Rename { old_name, new_name } => n matches Some(
                Need::RenameUser { old_name: a, new_name: b },
            ) && a@ == old_name@ && b@ == new_name@,
            Job::Deploy { token } => n matches Some(Need::Deploy(x)) && x@ == token@,
            Job::SnapshotRestoring { tag } => n matches Some(Need::Restore(x)) && x@ == tag@,
            Job::List => n matches Some(Need::Users),
            Job::Url { .. } => n matches Some(Need::Users),
            Job::Qr { .. } => n matches Some(Need::Users),
            Job::Vpn { .. } => n matches Some(Need::Users),
            Job::Online => n matches Some(Need::Users),
            Job::Delete { .. } => n matches Some(Need::Users),
            Job::DeleteAsk { .. } => n matches Some(Need::Terminal),
            Job::DeleteAnswer { .. } => n matches Some(Need::Line),
            Job::Restore { .. } => n matches Some(Need::Backups),
            Job::SnapshotRestore { .. } => n matches Some(Need::Snapshots),
            Job::Upgrading => n matches Some(Need::Upgrade),
            Job::Done => n is None,
            Job::Failed { .. } => n is None,
            _ => true,
        },
{
    match j {
        Job::ListTraffic { users } => {
            let v = n->0->Traffic_0;
            lemma_emails(users@, v@);
        },
        Job::OnlineCounts { users } => {
            let v = n->0->Counts_0;
            lemma_emails(users@, v@);
        },
        _ => {},
    }
}

proof fn lemma_emails(users: Seq<XrayUser>, v: Seq<String>)
    requires
        text::texts(v) == work::emails(table::user_views(users)),
    ensures
        v.len() == users.len(),
        forall|i: int| 0 <= i < v.len() ==> (#[trigger] v[i])@ == users[i].email@,
{
    assert(text::texts(v).len() == v.len());
    assert forall|i: int| 0 <= i < v.len() implies (#[trigger] v[i])@ == users[i].email@ by {
        assert(text::texts(v)[i] == v[i]@);
        assert(table::user_views(users)[i] == users[i]@);
    }
}

/// A line that is a result.
pub open spec fn prints(r: Step, i: int, t: Seq<char>) -> bool {
    r.lines@[i] matches Line::Print(x) && x@ == t
}

/// **What a command got is what it prints.** The URL over the bridge and the direct one are printed
/// under their own names, and so are the id of a new user, the time of a backup, the names of a user
/// that was renamed and the name of one that was deleted.
pub proof fn law_command_prints_what_it_got(j: Job, got: Got, r: Step)
    requires
        j.wf(),
        work::fits(j.wants(), got),
        call_ensures(Job::next, (j, got), r),
    ensures
        match (j, got) {
            (Job::UrlBridge { uuid }, Got::Text(b)) => r.job matches Job::UrlDirect {
                uuid: u,
                bridge_url,
            } && u@ == uuid@ && bridge_url@ == b@,
            (Job::UrlDirect { bridge_url, .. }, Got::Text(d)) => r.lines@.len() == 2 && prints(
                r,
                0,
                "Bridge: "@ + bridge_url@,
            ) && prints(r, 1, "Direct: "@ + d@),
            (Job::QrUrl { name, .. }, Got::Text(url)) => r.job matches Job::QrDraw {
                name: n,
                url: u,
            } && n@ == name@ && u@ == url@,
            (Job::Adding { name }, Got::Text(uuid)) => r.lines@.len() == 3 && prints(
                r,
                1,
                "Name:  "@ + name@,
            ) && prints(r, 2, "UUID:  "@ + uuid@) && (r.job matches Job::AddUrl { uuid: u } && u@
                == uuid@),
            (Job::AddUrl { .. }, Got::Text(url)) => r.lines@.len() == 1 && prints(
                r,
                0,
                "Bridge: "@ + url@,
            ),
            (Job::Backup, Got::Text(ts)) => r.lines@.len() == 3 && prints(
                r,
                1,
                "  server.json."@ + ts@ + ".bak"@,
            ) && prints(r, 2, "  clientsTable."@ + ts@ + ".bak"@),
            (Job::Deleting { name, .. }, Got::Done) => r.lines@.len() == 1 && prints(
                r,
                0,
                "User '"@ + name@ + "' deleted."@,
            ),
            (Job::Rename { old_name, new_name }, Got::Done) => r.lines@.len() == 2 && prints(
                r,
                0,
                "User renamed: '"@ + old_name@ + "' -> '"@ + new_name@ + "'"@,
            ),
            (Job::Deploy { .. }, Got::Text(m)) => r.lines@.len() == 1 && prints(r, 0, m@),
            (Job::SnapshotRestoring { tag }, Got::Done) => r.lines@.len() == 1 && prints(
                r,
                0,
                "Restored from snapshot ["@ + tag@ + "]. Container restarted."@,
            ),
            _ => true,
        },
{
    lemma_printed_two(r);
}

proof fn lemma_printed_two(r: Step)
    ensures
        job::line_views(r.lines@).len() == r.lines@.len(),
        forall|i: int|
            0 <= i < r.lines@.len() ==> (#[trigger] job::line_views(r.lines@)[i]) == r.lines@[i]@,
        forall|i: int|
            0 <= i < r.lines@.len() ==> (#[trigger] r.lines@[i])@ == job::line_views(r.lines@)[i],
{
}

/// **The snapshot that was asked for is restored, and no other.** With a tag it is restored exactly
/// where a snapshot has that tag, and without one the last snapshot is.
pub proof fn law_snapshot_is_the_one_asked_for(tag: Option<String>, v: Vec<SnapshotInfo>, r: Step)
    requires
        call_ensures(Job::next, (Job::SnapshotRestore { tag }, Got::Snapshots(v)), r),
    ensures
        r.job is SnapshotRestoring || r.job is Failed,
        match tag {
            Some(t) => (r.job is SnapshotRestoring <==> exists|i: int|
                0 <= i < v@.len() && (#[trigger] v@[i]).tag@ == t@) && (r.job
                matches Job::SnapshotRestoring { tag: x } ==> x@ == t@),
            None => (r.job is SnapshotRestoring <==> v@.len() > 0) && (r.job
                matches Job::SnapshotRestoring { tag: x } ==> x@ == v@[v@.len() - 1].tag@),
        },
{
    if let Some(t) = tag {
        let ts = job::tags(v@);
        if ts.contains(t@) {
            let i = choose|i: int| 0 <= i < ts.len() && ts[i] == t@;
            assert(v@[i].tag@ == t@);
        }
        if exists|i: int| 0 <= i < v@.len() && (#[trigger] v@[i]).tag@ == t@ {
            let i = choose|i: int| 0 <= i < v@.len() && (#[trigger] v@[i]).tag@ == t@;
            assert(ts[i] == t@);
            assert(ts.contains(t@));
        }
    }
}

/// **Xray is upgraded exactly where another version is the newest**, and a deletion goes on exactly
/// where the name was typed, with the user that was found.
pub proof fn law_upgrade_needs_another_version(
    version: String,
    latest: String,
    r: Step,
    name: String,
    uuid: String,
    line: String,
    d: Step,
)
    requires
        call_ensures(Job::next, (Job::UpgradeNewest { version }, Got::Text(latest)), r),
        call_ensures(Job::next, (Job::DeleteAnswer { name, uuid }, Got::Text(line)), d),
    ensures
        r.job is Upgrading <==> latest@ != version@,
        r.job is Done <==> latest@ == version@,
        d.job is Deleting <==> text::trimmed(line@) == name@,
        d.job is Done <==> text::trimmed(line@) != name@,
        d.job matches Job::Deleting { name: n, uuid: u } ==> n == name && u == uuid,
{
}

/// **A new name is checked in both documents**: it is taken where a client has its email or an entry
/// has it, and then nothing is added.
pub proof fn law_new_name_is_checked(
    name: String,
    config: ServerConfig,
    t: ClientsTable,
    email: &str,
    asked: &str,
    a: bool,
    b: bool,
    taken: bool,
    r: Step,
    q: Step,
)
    requires
        email@ == name@ + "@vpn"@,
        asked@ == name@,
        call_ensures(ServerConfig::has_client_email, (&config, email), a),
        call_ensures(ClientsTable::has_name, (&t, asked), b),
        call_ensures(Job::next, (Job::Add { name }, Got::Config(config)), r),
        call_ensures(Job::next, (Job::AddTable { name, taken }, Got::Table(t)), q),
    ensures
        r.job == (Job::AddTable { name, taken: a }),
        taken || b ==> q.job is Failed,
        !taken && !b ==> q.job == (Job::AddApi { name }),
{
    table::lemma_name_index(t@, name@, 0);
    if b {
        let k = table::name_index(t@, name@, 0)->0;
        assert(0 <= k < t@.len() && t@[k].name == name@);
        assert(job::after(Job::AddTable { name, taken }, Got::Table(t), q));
        assert(job::add_after(Job::AddTable { name, taken }, Got::Table(t), q));
        assert(exists|i: int| 0 <= i < t@.len() && (#[trigger] t@[i]).name == name@);
        assert(job::failed_with(q, "user '"@ + name@ + "' already exists"@));
        assert(q.job is Failed);
    }
}

} // verus!
