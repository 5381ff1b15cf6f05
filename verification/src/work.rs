//! What the bot and the command line need from the server and from its machine.
//!
//! A conversation or a command says what it needs next, the caller gets it, and hands it back.

use crate::backend::BridgeParams;
use crate::error::AppError;
use crate::text;
use crate::text::{no_texts, push_text, same};
use crate::xray::client::ServerInfo;
use crate::xray::table;
use crate::xray::table::ClientsTable;
use crate::xray::types::{ServerConfig, TrafficStats, UserV, VlessUrlParams, XrayUser};
use vstd::prelude::*;

verus! {

/// A snapshot of the server.
#[derive(Debug, Clone)]
pub struct SnapshotInfo {
    pub tag: String,
    pub version: String,
    pub users_count: usize,
}

/// What came of an upgrade.
#[derive(Debug, Clone)]
pub struct UpgradeResult {
    pub old_version: String,
    pub new_version: String,
    pub snapshot_tag: String,
}

/// Something that is needed.
#[derive(Debug)]
pub enum Need {
    /// All users.
    Users,
    /// The traffic and the number of connections of the users with these emails.
    Traffic(Vec<String>),
    /// The numbers of connections of the users with these emails.
    Counts(Vec<String>),
    /// The addresses of the users with these emails.
    Ips(Vec<String>),
    /// The counters of the bridge.
    BridgeStats,
    /// Whether the bridge is up.
    BridgeHealth,
    ServerInfo,
    /// Whether the statistics can be had.
    Probe,
    /// The API of the server to be enabled; whether it was not before.
    EnsureApi,
    Uptime,
    /// The newest version, as far as it can be had.
    Latest,
    /// The newest version.
    Newest,
    /// A user of that name to be added; its id.
    AddUser(String),
    /// The user with that id to be removed.
    RemoveUser(String),
    RenameUser { old_name: String, new_name: String },
    /// The URL over the bridge of the user with that id.
    BridgeUrl(String),
    /// The direct URL of the user with that id.
    DirectUrl(String),
    /// The URL of the user with that id.
    ServerUrl(String),
    BridgeParams,
    /// What the direct URL of the user with that id is made of.
    DirectParams(String),
    /// The user to be added on the bridge.
    Register { uuid: String, email: String },
    /// The user to be removed on the bridge.
    Unregister(String),
    /// The QR code of a text as a picture.
    Qr(String),
    /// The QR code of a text as lines.
    QrLines(String),
    CreateSnapshot,
    /// A snapshot as an archive.
    Pack(String),
    Snapshots,
    /// A snapshot to be restored.
    Restore(String),
    Upgrade,
    Config,
    Table,
    /// A backup to be made; its timestamp.
    Backup,
    /// The timestamps of the backups, newest first.
    Backups,
    /// That backup, or the newest one, to be restored; its timestamp.
    RestoreBackup(Option<String>),
    /// Whether somebody is there to be asked.
    Terminal,
    /// A line that somebody types.
    Line,
    /// The bot to be deployed with that token.
    Deploy(String),
}

pub enum NeedV {
    Users,
    Traffic(Seq<Seq<char>>),
    Counts(Seq<Seq<char>>),
    Ips(Seq<Seq<char>>),
    BridgeStats,
    BridgeHealth,
    ServerInfo,
    Probe,
    EnsureApi,
    Uptime,
    Latest,
    Newest,
    AddUser(Seq<char>),
    RemoveUser(Seq<char>),
    RenameUser(Seq<char>, Seq<char>),
    BridgeUrl(Seq<char>),
    DirectUrl(Seq<char>),
    ServerUrl(Seq<char>),
    BridgeParams,
    DirectParams(Seq<char>),
    Register(Seq<char>, Seq<char>),
    Unregister(Seq<char>),
    Qr(Seq<char>),
    QrLines(Seq<char>),
    CreateSnapshot,
    Pack(Seq<char>),
    Snapshots,
    Restore(Seq<char>),
    Upgrade,
    Config,
    Table,
    Backup,
    Backups,
    RestoreBackup(Option<Seq<char>>),
    Terminal,
    Line,
    Deploy(Seq<char>),
}

impl View for Need {
    type V = NeedV;

    open spec fn view(&self) -> NeedV {
        match self {
            Need::Users => NeedV::Users,
            Need::Traffic(v) => NeedV::Traffic(text::texts(v@)),
            Need::Counts(v) => NeedV::Counts(text::texts(v@)),
            Need::Ips(v) => NeedV::Ips(text::texts(v@)),
            Need::BridgeStats => NeedV::BridgeStats,
            Need::BridgeHealth => NeedV::BridgeHealth,
            Need::ServerInfo => NeedV::ServerInfo,
            Need::Probe => NeedV::Probe,
            Need::EnsureApi => NeedV::EnsureApi,
            Need::Uptime => NeedV::Uptime,
            Need::Latest => NeedV::Latest,
            Need::Newest => NeedV::Newest,
            Need::AddUser(s) => NeedV::AddUser(s@),
            Need::RemoveUser(s) => NeedV::RemoveUser(s@),
            Need::RenameUser { old_name, new_name } => NeedV::RenameUser(old_name@, new_name@),
            Need::BridgeUrl(s) => NeedV::BridgeUrl(s@),
            Need::DirectUrl(s) => NeedV::DirectUrl(s@),
            Need::ServerUrl(s) => NeedV::ServerUrl(s@),
            Need::BridgeParams => NeedV::BridgeParams,
            Need::DirectParams(s) => NeedV::DirectParams(s@),
            Need::Register { uuid, email } => NeedV::Register(uuid@, email@),
            Need::Unregister(s) => NeedV::Unregister(s@),
            Need::Qr(s) => NeedV::Qr(s@),
            Need::QrLines(s) => NeedV::QrLines(s@),
            Need::CreateSnapshot => NeedV::CreateSnapshot,
            Need::Pack(s) => NeedV::Pack(s@),
            Need::Snapshots => NeedV::Snapshots,
            Need::Restore(s) => NeedV::Restore(s@),
            Need::Upgrade => NeedV::Upgrade,
            Need::Config => NeedV::Config,
            Need::Table => NeedV::Table,
            Need::Backup => NeedV::Backup,
            Need::Backups => NeedV::Backups,
            Need::RestoreBackup(s) => NeedV::RestoreBackup(text::opt_text(*s)),
            Need::Terminal => NeedV::Terminal,
            Need::Line => NeedV::Line,
            Need::Deploy(s) => NeedV::Deploy(s@),
        }
    }
}

/// What a need is met with.
#[derive(Debug)]
pub enum Got {
    Users(Vec<XrayUser>),
    /// For each user, as far as it could be had.
    Traffic(Vec<(Option<TrafficStats>, Option<u32>)>),
    Counts(Vec<Option<u32>>),
    Ips(Vec<Option<Vec<String>>>),
    /// A text that may not be there.
    Maybe(Option<String>),
    Info(ServerInfo),
    Yes(bool),
    Text(String),
    Params(VlessUrlParams),
    Bridge(BridgeParams),
    Bytes(Vec<u8>),
    Lines(Vec<String>),
    Snapshot(SnapshotInfo),
    Snapshots(Vec<SnapshotInfo>),
    Upgraded(UpgradeResult),
    Config(ServerConfig),
    Table(ClientsTable),
    /// It was done, and there is nothing to hand back.
    Done,
    /// Why it could not be done, in the words of what was used for it.
    Refused(String),
    Failed(AppError),
}

/// A number that could not be had counts as none.
pub open spec fn or_zero(n: Option<u32>) -> nat {
    match n {
        Some(x) => x as nat,
        None => 0,
    }
}

/// The sum of the numbers.
pub open spec fn total(s: Seq<Option<u32>>) -> nat
    decreases s.len(),
{
    if s.len() == 0 {
        0
    } else {
        total(s.drop_last()) + or_zero(s.last())
    }
}

/// What was got is of the kind that was needed. A sum of connections fits into the memory.
pub open spec fn fits(need: Option<NeedV>, got: Got) -> bool {
    match need {
        None => false,
        Some(n) => match n {
            NeedV::Users => got is Users || got is Failed,
            NeedV::Traffic(v) => got matches Got::Traffic(t) && t@.len() == v.len(),
            NeedV::Counts(v) => got matches Got::Counts(c) && c@.len() == v.len() && total(c@)
                <= usize::MAX,
            NeedV::Ips(v) => got matches Got::Ips(i) && i@.len() == v.len(),
            NeedV::BridgeStats => got is Maybe,
            NeedV::BridgeHealth => got is Yes || got is Failed,
            NeedV::ServerInfo => got is Info || got is Failed,
            NeedV::Probe => got is Yes || got is Failed,
            NeedV::EnsureApi => got is Yes || got is Failed,
            NeedV::Uptime => got is Text,
            NeedV::Latest => got is Maybe,
            NeedV::Newest => got is Text || got is Failed,
            NeedV::AddUser(_) => got is Text || got is Failed,
            NeedV::RemoveUser(_) => got is Done || got is Failed,
            NeedV::RenameUser(_, _) => got is Done || got is Failed,
            NeedV::BridgeUrl(_) => got is Text || got is Failed,
            NeedV::DirectUrl(_) => got is Text || got is Failed,
            NeedV::ServerUrl(_) => got is Text || got is Failed,
            NeedV::BridgeParams => got is Bridge || got is Failed,
            NeedV::DirectParams(_) => got is Params || got is Failed,
            NeedV::Register(_, _) => got is Done || got is Failed,
            NeedV::Unregister(_) => got is Done || got is Failed,
            NeedV::Qr(_) => got is Bytes || got is Refused,
            NeedV::QrLines(_) => got is Lines || got is Refused,
            NeedV::CreateSnapshot => got is Snapshot || got is Failed,
            NeedV::Pack(_) => got is Bytes || got is Failed,
            NeedV::Snapshots => got is Snapshots || got is Failed,
            NeedV::Restore(_) => got is Done || got is Failed,
            NeedV::Upgrade => got is Upgraded || got is Failed,
            NeedV::Config => got is Config || got is Failed,
            NeedV::Table => got is Table || got is Failed,
            NeedV::Backup => got is Text || got is Failed,
            NeedV::Backups => got is Lines || got is Failed,
            NeedV::RestoreBackup(_) => got is Text || got is Failed,
            NeedV::Terminal => got is Yes,
            NeedV::Line => got is Text || got is Failed,
            NeedV::Deploy(_) => got is Text || got is Refused,
        },
    }
}

/// The meaning of a need that may be missing.
pub open spec fn opt_need(n: Option<Need>) -> Option<NeedV> {
    match n {
        Some(x) => Some(x@),
        None => None,
    }
}

// ---- users ----

/// The emails of users.
pub open spec fn emails(users: Seq<UserV>) -> Seq<Seq<char>> {
    Seq::new(users.len(), |i: int| users[i].email)
}

/// The emails of users.
pub fn emails_of(users: &Vec<XrayUser>) -> (r: Vec<String>)
    ensures
        text::texts(r@) == emails(table::user_views(users@)),
{
    let mut r = no_texts();
    let mut i: usize = 0;
    while i < users.len()
        invariant
            i <= users@.len(),
            text::texts(r@) =~= emails(table::user_views(users@)).take(i as int),
        decreases users.len() - i,
    {
        push_text(&mut r, users[i].email.clone());
        i += 1;
    }
    assert(text::texts(r@) =~= emails(table::user_views(users@)));
    r
}

/// The place of the first user of that name from `i` on.
pub open spec fn named_at(users: Seq<UserV>, name: Seq<char>, i: int) -> Option<int>
    decreases users.len() - i,
{
    if i < 0 || i >= users.len() {
        None
    } else if users[i].name == name {
        Some(i)
    } else {
        named_at(users, name, i + 1)
    }
}

/// The first user of that name.
pub open spec fn named(users: Seq<UserV>, name: Seq<char>) -> Option<UserV> {
    match named_at(users, name, 0) {
        Some(i) => Some(users[i]),
        None => None,
    }
}

/// The id of the first user of that name.
pub fn uuid_of_name(users: &Vec<XrayUser>, name: &str) -> (r: Option<String>)
    ensures
        text::opt_text(r) == match named(table::user_views(users@), name@) {
            Some(u) => Some(u.uuid),
            None => None,
        },
{
    let ghost all = table::user_views(users@);
    let mut i: usize = 0;
    while i < users.len()
        invariant
            all == table::user_views(users@),
            i <= users@.len(),
            named_at(all, name@, 0) == named_at(all, name@, i as int),
        decreases users.len() - i,
    {
        if same(&users[i].name, name) {
            return Some(users[i].uuid.clone());
        }
        i += 1;
    }
    None
}

/// The place of the first user with that name.
pub proof fn lemma_named_at(users: Seq<UserV>, name: Seq<char>, i: int)
    requires
        0 <= i,
    ensures
        match named_at(users, name, i) {
            Some(k) => i <= k < users.len() && users[k].name == name && forall|j: int|
                i <= j < k ==> (#[trigger] users[j]).name != name,
            None => forall|j: int| i <= j < users.len() ==> (#[trigger] users[j]).name != name,
        },
    decreases users.len() - i,
{
    if i < users.len() && users[i].name != name {
        lemma_named_at(users, name, i + 1);
    }
}

/// **A user is found by its whole name.** The id that is found is that of a listed user whose name is
/// the one asked for, and no earlier user has that name; nothing is found exactly where no listed
/// user has it.
pub proof fn law_user_is_found_by_name(users: Vec<XrayUser>, name: &str, r: Option<String>)
    requires
        call_ensures(uuid_of_name, (&users, name), r),
    ensures
        match r {
            Some(id) => exists|i: int|
                #![trigger users@[i]]
                0 <= i < users@.len() && users@[i].name@ == name@ && users@[i].uuid@ == id@
                    && forall|j: int|
                    0 <= j < i ==> (#[trigger] users@[j]).name@ != name@,
            None => forall|j: int|
                0 <= j < users@.len() ==> (#[trigger] users@[j]).name@ != name@,
        },
{
    let all = table::user_views(users@);
    lemma_named_at(all, name@, 0);
    match named_at(all, name@, 0) {
        Some(k) => {
            assert(users@[k].name@ == all[k].name);
            assert forall|j: int| 0 <= j < k implies (#[trigger] users@[j]).name@ != name@ by {
                assert(all[j].name != name@);
            }
        },
        None => {
            assert forall|j: int| 0 <= j < users@.len() implies (#[trigger] users@[j]).name@
                != name@ by {
                assert(all[j].name != name@);
            }
        },
    }
}

/// The place of the first user with that id from `i` on.
pub open spec fn id_at(users: Seq<UserV>, id: Seq<char>, i: int) -> Option<int>
    decreases users.len() - i,
{
    if i < 0 || i >= users.len() {
        None
    } else if users[i].uuid == id {
        Some(i)
    } else {
        id_at(users, id, i + 1)
    }
}

/// The place of the first user with that id.
pub fn place_of_id(users: &Vec<XrayUser>, id: &str) -> (r: Option<usize>)
    ensures
        match r {
            Some(i) => i < users@.len() && id_at(table::user_views(users@), id@, 0) == Some(
                i as int,
            ),
            None => id_at(table::user_views(users@), id@, 0) is None,
        },
{
    let ghost all = table::user_views(users@);
    let mut i: usize = 0;
    while i < users.len()
        invariant
            all == table::user_views(users@),
            i <= users@.len(),
            id_at(all, id@, 0) == id_at(all, id@, i as int),
        decreases users.len() - i,
    {
        if same(&users[i].uuid, id) {
            return Some(i);
        }
        i += 1;
    }
    None
}

/// No user of that name.
pub open spec fn not_found(name: Seq<char>) -> Seq<char> {
    "user '"@ + name + "' not found"@
}

/// The sum of numbers of connections.
pub fn sum_of(counts: &Vec<Option<u32>>) -> (r: usize)
    requires
        total(counts@) <= usize::MAX,
    ensures
        r == total(counts@),
{
    let mut sum: usize = 0;
    let mut i: usize = 0;
    while i < counts.len()
        invariant
            total(counts@) <= usize::MAX,
            i <= counts@.len(),
            sum == total(counts@.take(i as int)),
        decreases counts.len() - i,
    {
        proof {
            assert(counts@.take(i + 1).drop_last() =~= counts@.take(i as int));
            lemma_total_grows(counts@, i + 1);
        }
        match counts[i] {
            Some(n) => {
                sum += n as usize;
            },
            None => {},
        }
        i += 1;
    }
    assert(counts@.take(i as int) =~= counts@);
    sum
}

proof fn lemma_total_grows(s: Seq<Option<u32>>, i: int)
    requires
        0 <= i <= s.len(),
    ensures
        total(s.take(i)) <= total(s),
    decreases s.len() - i,
{
    if i < s.len() {
        lemma_total_grows(s, i + 1);
        assert(s.take(i + 1).drop_last() =~= s.take(i));
    } else {
        assert(s.take(i) =~= s);
    }
}

// ---- laws ----

/// `id` is the id of the first of the users that has that name.
pub open spec fn is_id_of(users: Seq<XrayUser>, name: Seq<char>, id: Seq<char>) -> bool {
    exists|i: int|
        #![trigger users[i]]
        0 <= i < users.len() && users[i].name@ == name && users[i].uuid@ == id && forall|j: int|
            0 <= j < i ==> (#[trigger] users[j]).name@ != name
}

/// What is found by name is the id of the first user with that name.
pub proof fn lemma_named(users: Seq<XrayUser>, name: Seq<char>)
    ensures
        match named(table::user_views(users), name) {
            Some(u) => is_id_of(users, name, u.uuid),
            None => forall|j: int| 0 <= j < users.len() ==> (#[trigger] users[j]).name@ != name,
        },
{
    let all = table::user_views(users);
    lemma_named_at(all, name, 0);
    match named_at(all, name, 0) {
        Some(k) => {
            assert(users[k].name@ == all[k].name && users[k].uuid@ == all[k].uuid);
            assert forall|j: int| 0 <= j < k implies (#[trigger] users[j]).name@ != name by {
                assert(all[j].name != name);
            }
        },
        None => {
            assert forall|j: int| 0 <= j < users.len() implies (#[trigger] users[j]).name@
                != name by {
                assert(all[j].name != name);
            }
        },
    }
}

/// The place of the first user with that id.
pub proof fn lemma_id_at(users: Seq<UserV>, id: Seq<char>, i: int)
    requires
        0 <= i,
    ensures
        match id_at(users, id, i) {
            Some(k) => i <= k < users.len() && users[k].uuid == id && forall|j: int|
                i <= j < k ==> (#[trigger] users[j]).uuid != id,
            None => forall|j: int| i <= j < users.len() ==> (#[trigger] users[j]).uuid != id,
        },
    decreases users.len() - i,
{
    if i < users.len() && users[i].uuid != id {
        lemma_id_at(users, id, i + 1);
    }
}

/// **A user is found by its whole id**: at the first place where a user with that id is listed.
pub proof fn law_user_is_found_by_id(users: Vec<XrayUser>, id: &str, r: Option<usize>)
    requires
        call_ensures(place_of_id, (&users, id), r),
    ensures
        match r {
            Some(i) => i < users@.len() && users@[i as int].uuid@ == id@ && forall|j: int|
                0 <= j < i ==> (#[trigger] users@[j]).uuid@ != id@,
            None => forall|j: int| 0 <= j < users@.len() ==> (#[trigger] users@[j]).uuid@ != id@,
        },
{
    let all = table::user_views(users@);
    lemma_id_at(all, id@, 0);
    match r {
        Some(i) => {
            assert(all[i as int].uuid == users@[i as int].uuid@);
            assert forall|j: int| 0 <= j < i implies (#[trigger] users@[j]).uuid@ != id@ by {
                assert(all[j].uuid != id@);
            }
        },
        None => {
            assert forall|j: int| 0 <= j < users@.len() implies (#[trigger] users@[j]).uuid@
                != id@ by {
                assert(all[j].uuid != id@);
            }
        },
    }
}

/// **The emails are the users' own, in their order.**
pub proof fn law_emails_are_the_users_own(users: Vec<XrayUser>, r: Vec<String>)
    requires
        call_ensures(emails_of, (&users,), r),
    ensures
        r@.len() == users@.len(),
        forall|i: int| 0 <= i < r@.len() ==> (#[trigger] r@[i])@ == users@[i].email@,
{
    let t = text::texts(r@);
    assert(t.len() == r@.len());
    assert forall|i: int| 0 <= i < r@.len() implies (#[trigger] r@[i])@ == users@[i].email@ by {
        assert(t[i] == r@[i]@);
        assert(table::user_views(users@)[i] == users@[i]@);
    }
}

/// **A sum counts every number once**: it is zero of none, and a number more adds that number, or
/// nothing where it could not be had.
pub proof fn law_sum_counts_every_number(
    a: Vec<Option<u32>>,
    b: Vec<Option<u32>>,
    x: Option<u32>,
    m: usize,
    n: usize,
)
    requires
        total(a@) <= usize::MAX,
        total(b@) <= usize::MAX,
        b@ == a@.push(x),
        call_ensures(sum_of, (&a,), m),
        call_ensures(sum_of, (&b,), n),
    ensures
        a@.len() == 0 ==> m == 0,
        n == m + (match x {
            Some(k) => k as int,
            None => 0,
        }),
{
    assert(b@.drop_last() =~= a@);
}

} // verus!
