//! The administration of users and backups: what is asked of the server, in which order, and what
//! follows from its answers.
//!
//! Each operation is a value that says what to do next and takes the answer. Reading the two
//! documents and running the commands is left to the caller.

use crate::error;
use crate::error::AppError;
use crate::json::codec;
use crate::json::JsonV;
use crate::text;
use crate::text::{contains, contains_char, same, trim};
use crate::xray::answers;
use crate::xray::answers::{
    parse_online_count, parse_online_ip_list, parse_stat_value, parse_version,
};
use crate::xray::commands;
use crate::xray::commands::{
    build_adu_cmd, build_backup_cmd, build_list_backups_cmd, build_restart_cmd, build_restore_cmd,
    build_rmu_cmd, build_validate_backup_cmd, build_write_cmd, parse_backup_timestamps,
    CLIENTS_TABLE_PATH, SERVER_CONFIG_PATH, VLESS_INBOUND_TAG,
};
use crate::xray::table;
use crate::xray::table::{merge_users, ClientsTable};
use crate::xray::types;
use crate::xray::types::{
    ClientV, EntryV, ServerConfig, ServerJsonClient, TrafficStats, XrayUser,
};
use crate::xray::urls;
use crate::xray::urls::build_adu_json;
use vstd::prelude::*;

verus! {

/// What a command printed, and whether it succeeded.
#[derive(Debug, Clone)]
pub struct CommandOutput {
    pub stdout: String,
    pub stderr: String,
    pub success: bool,
}

/// Something that an operation asks for.
#[derive(Debug, Clone)]
pub enum Request {
    /// Read `server.json`.
    ReadConfig,
    /// Read `clientsTable`.
    ReadTable,
    /// Run a command in the container.
    InContainer(String),
    /// Run a command on the host.
    OnHost(String),
}

/// What came back.
#[derive(Debug)]
pub enum Reply {
    Config(ServerConfig),
    Table(ClientsTable),
    Output(CommandOutput),
    /// It could not be done at all.
    Failed(AppError),
}

/// What a request asks for.
pub enum RequestV {
    ReadConfig,
    ReadTable,
    InContainer(Seq<char>),
    OnHost(Seq<char>),
}

impl View for Request {
    type V = RequestV;

    open spec fn view(&self) -> RequestV {
        match self {
            Request::ReadConfig => RequestV::ReadConfig,
            Request::ReadTable => RequestV::ReadTable,
            Request::InContainer(c) => RequestV::InContainer(c@),
            Request::OnHost(c) => RequestV::OnHost(c@),
        }
    }
}

/// The reply is of the kind that the request asks for.
pub open spec fn answers_to(q: Option<RequestV>, p: Reply) -> bool {
    match (q, p) {
        (Some(_), Reply::Failed(_)) => true,
        (Some(RequestV::ReadConfig), Reply::Config(_)) => true,
        (Some(RequestV::ReadTable), Reply::Table(_)) => true,
        (Some(RequestV::InContainer(_)), Reply::Output(_)) => true,
        (Some(RequestV::OnHost(_)), Reply::Output(_)) => true,
        _ => false,
    }
}

/// The meaning of a request that may be missing.
pub open spec fn opt_request(q: Option<Request>) -> Option<RequestV> {
    match q {
        Some(x) => Some(x@),
        None => None,
    }
}

/// The command that copies both files to their backups.
pub open spec fn backup_cmd() -> Seq<char> {
    "sh -c 'cp "@ + SERVER_CONFIG_PATH@ + " "@ + SERVER_CONFIG_PATH@ + ".bak && cp "@
        + CLIENTS_TABLE_PATH@ + " "@ + CLIENTS_TABLE_PATH@ + ".bak'"@
}

/// The command that writes `server.json`.
pub open spec fn write_config_cmd(raw: JsonV) -> Seq<char> {
    commands::write_cmd(SERVER_CONFIG_PATH@, codec::pretty_text(raw))
}

/// The command that writes `clientsTable`.
pub open spec fn write_table_cmd(t: Seq<EntryV>) -> Seq<char> {
    commands::write_cmd(CLIENTS_TABLE_PATH@, codec::pretty_text(table::table_json(t)))
}

fn build_write_config_cmd(config: &ServerConfig) -> (r: String)
    ensures
        r@ == write_config_cmd(config@),
{
    build_write_cmd(SERVER_CONFIG_PATH, &config.to_json())
}

fn build_write_table_cmd(t: &ClientsTable) -> (r: String)
    ensures
        r@ == write_table_cmd(t@),
{
    build_write_cmd(CLIENTS_TABLE_PATH, &t.to_json())
}

/// A message in front of the server's own, which is trimmed.
pub open spec fn with_stderr(m: Seq<char>, o: CommandOutput) -> Seq<char> {
    m + text::trimmed(o.stderr@)
}

fn stderr_error(m: &str, o: &CommandOutput) -> (r: AppError)
    ensures
        error::is_xray(r, with_stderr(m@, *o)),
{
    let mut s = m.to_owned();
    s.append(&trim(&o.stderr));
    AppError::Xray(s)
}

fn message_error(m: &str, t: &str) -> (r: AppError)
    ensures
        error::is_xray(r, m@ + t@),
{
    let mut s = m.to_owned();
    s.append(t);
    AppError::Xray(s)
}

/// A message around a name.
pub open spec fn around(a: Seq<char>, name: Seq<char>, b: Seq<char>) -> Seq<char> {
    a + name + b
}

fn named_error(a: &str, name: &str, b: &str) -> (r: AppError)
    ensures
        error::is_xray(r, around(a@, name@, b@)),
{
    let mut s = a.to_owned();
    s.append(name);
    s.append(b);
    AppError::Xray(s)
}

// ---- adding a user ----

/// Why a name cannot be that of a new user, if it cannot.
pub open spec fn name_fault(name: Seq<char>) -> Option<Seq<char>> {
    if text::trimmed(name).len() == 0 {
        Some("user name cannot be empty"@)
    } else if name.contains('@') || text::has(name, ">>>"@) {
        Some("user name must not contain '@' or '>>>'"@)
    } else {
        None
    }
}

/// The client that a new user is.
pub open spec fn new_client(name: Seq<char>, uuid: Seq<char>) -> ClientV {
    ClientV {
        id: uuid,
        flow: Seq::empty(),
        email: Some(types::email_of(name)),
        level: Some(0u32),
    }
}

/// A client of the document has that email.
pub open spec fn email_taken(raw: JsonV, email: Seq<char>) -> bool {
    exists|i: int|
        0 <= i < types::clients_of(raw).len() && (#[trigger] types::clients_of(raw)[i]).email
            == Some(email)
}

/// Adding a user: both documents are written before the running server is told, so that no user
/// runs that is not on disk.
#[derive(Debug)]
pub enum AddUser {
    ReadConfig { name: String, uuid: String },
    Backup { name: String, uuid: String, config: ServerConfig },
    WriteConfig { name: String, uuid: String, cmd: String },
    ReadTable { name: String, uuid: String },
    WriteTable { name: String, uuid: String, cmd: String },
    Announce { uuid: String, cmd: String },
    Done { uuid: String },
    Failed { error: AppError },
}

impl AddUser {
    /// What is asked for in this state; nothing at the end.
    pub open spec fn asks(self) -> Option<RequestV> {
        match self {
            AddUser::ReadConfig { .. } => Some(RequestV::ReadConfig),
            AddUser::Backup { .. } => Some(RequestV::InContainer(backup_cmd())),
            AddUser::WriteConfig { cmd, .. } => Some(RequestV::InContainer(cmd@)),
            AddUser::ReadTable { .. } => Some(RequestV::ReadTable),
            AddUser::WriteTable { cmd, .. } => Some(RequestV::InContainer(cmd@)),
            AddUser::Announce { cmd, .. } => Some(RequestV::InContainer(cmd@)),
            AddUser::Done { .. } => None,
            AddUser::Failed { .. } => None,
        }
    }

    /// The operation has failed with that message.
    pub open spec fn failed_with(self, m: Seq<char>) -> bool {
        self matches AddUser::Failed { error } && error::is_xray(error, m)
    }

    /// Begins to add a user of that name and id, unless the name cannot be one.
    pub fn start(name: &str, uuid: &str) -> (r: AddUser)
        ensures
            match name_fault(name@) {
                Some(m) => r.failed_with(m),
                None => r matches AddUser::ReadConfig { name: n, uuid: u } && n@ == name@ && u@
                    == uuid@,
            },
    {
        if trim(name).as_str().is_empty() {
            return AddUser::Failed { error: AppError::Xray("user name cannot be empty".to_owned()) };
        }
        if contains_char(name, '@') || contains(name, ">>>") {
            return AddUser::Failed {
                error: AppError::Xray("user name must not contain '@' or '>>>'".to_owned()),
            };
        }
        AddUser::ReadConfig { name: name.to_owned(), uuid: uuid.to_owned() }
    }

    /// What is asked for in this state.
    pub fn request(&self) -> (r: Option<Request>)
        ensures
            opt_request(r) == self.asks(),
    {
        match self {
            AddUser::ReadConfig { .. } => Some(Request::ReadConfig),
            AddUser::Backup { .. } => Some(Request::InContainer(build_backup_cmd())),
            AddUser::WriteConfig { cmd, .. } => Some(Request::InContainer(cmd.clone())),
            AddUser::ReadTable { .. } => Some(Request::ReadTable),
            AddUser::WriteTable { cmd, .. } => Some(Request::InContainer(cmd.clone())),
            AddUser::Announce { cmd, .. } => Some(Request::InContainer(cmd.clone())),
            AddUser::Done { .. } => None,
            AddUser::Failed { .. } => None,
        }
    }

    /// The next state, after a reply to what was asked for.
    pub fn next(self, reply: Reply) -> (r: AddUser)
        requires
            answers_to(self.asks(), reply),
        ensures
            match (self, reply) {
                (_, Reply::Failed(e)) => r == (AddUser::Failed { error: e }),
                (AddUser::ReadConfig { name, uuid }, Reply::Config(c)) => if email_taken(
                    c@,
                    types::email_of(name@),
                ) {
                    r.failed_with(around("user '"@, name@, "' already exists"@))
                } else {
                    r == (AddUser::Backup { name, uuid, config: c })
                },
                (AddUser::Backup { name, uuid, config }, Reply::Output(o)) => if !o.success {
                    r.failed_with(with_stderr("backup failed: "@, o))
                } else {
                    match types::clients_array(config@) {
                        Some(a) => r matches AddUser::WriteConfig { name: n, uuid: u, cmd } && n
                            == name && u == uuid && cmd@ == write_config_cmd(
                            types::with_clients(
                                config@,
                                a.push(types::client_json(new_client(name@, uuid@))),
                            ),
                        ),
                        None => r.failed_with(types::no_clients(config@)),
                    }
                },
                (AddUser::WriteConfig { name, uuid, .. }, Reply::Output(o)) => if !o.success {
                    r.failed_with("failed to write server config: "@ + o.stderr@)
                } else {
                    r == (AddUser::ReadTable { name, uuid })
                },
                (AddUser::ReadTable { name, uuid }, Reply::Table(t)) => r matches
                    AddUser::WriteTable { name: n, uuid: u, cmd } && n == name && u == uuid && cmd@
                    == write_table_cmd(
                    t@.push((EntryV { id: uuid@, name: name@, date: Seq::empty() })),
                ),
                (AddUser::WriteTable { name, uuid, .. }, Reply::Output(o)) => if !o.success {
                    r.failed_with("failed to write clients table: "@ + o.stderr@)
                } else {
                    r matches AddUser::Announce { uuid: u, cmd } && u == uuid && cmd@
                        == commands::adu_cmd(
                        codec::compact_text(
                            urls::adu_call(
                                uuid@,
                                types::email_of(name@),
                                VLESS_INBOUND_TAG@,
                            ),
                        ),
                    )
                },
                (AddUser::Announce { uuid, .. }, Reply::Output(o)) => if !o.success {
                    r.failed_with(with_stderr("adu failed: "@, o))
                } else {
                    r == (AddUser::Done { uuid })
                },
                _ => true,
            },
    {
        match (self, reply) {
            (_, Reply::Failed(error)) => AddUser::Failed { error },
            (AddUser::ReadConfig { name, uuid }, Reply::Config(config)) => {
                let email = XrayUser::email_from_name(&name);
                if config.has_client_email(&email) {
                    AddUser::Failed { error: named_error("user '", &name, "' already exists") }
                } else {
                    AddUser::Backup { name, uuid, config }
                }
            },
            (AddUser::Backup { name, uuid, config }, Reply::Output(o)) => {
                if !o.success {
                    return AddUser::Failed { error: stderr_error("backup failed: ", &o) };
                }
                let client = ServerJsonClient {
                    id: uuid.clone(),
                    flow: String::new(),
                    email: Some(XrayUser::email_from_name(&name)),
                    level: Some(0),
                };
                let mut config = config;
                match config.add_client(&client) {
                    Ok(()) => {
                        let cmd = build_write_config_cmd(&config);
                        AddUser::WriteConfig { name, uuid, cmd }
                    },
                    Err(error) => AddUser::Failed { error },
                }
            },
            (AddUser::WriteConfig { name, uuid, .. }, Reply::Output(o)) => {
                if !o.success {
                    AddUser::Failed {
                        error: message_error("failed to write server config: ", &o.stderr),
                    }
                } else {
                    AddUser::ReadTable { name, uuid }
                }
            },
            (AddUser::ReadTable { name, uuid }, Reply::Table(table)) => {
                let mut table = table;
                table.add(uuid.clone(), name.clone());
                let cmd = build_write_table_cmd(&table);
                AddUser::WriteTable { name, uuid, cmd }
            },
            (AddUser::WriteTable { name, uuid, .. }, Reply::Output(o)) => {
                if !o.success {
                    AddUser::Failed {
                        error: message_error("failed to write clients table: ", &o.stderr),
                    }
                } else {
                    let email = XrayUser::email_from_name(&name);
                    let cmd = build_adu_cmd(&build_adu_json(&uuid, &email, VLESS_INBOUND_TAG));
                    AddUser::Announce { uuid, cmd }
                }
            },
            (AddUser::Announce { uuid, .. }, Reply::Output(o)) => {
                if !o.success {
                    AddUser::Failed { error: stderr_error("adu failed: ", &o) }
                } else {
                    AddUser::Done { uuid }
                }
            },
            (s, _) => s,
        }
    }
}

/// The running server is told of a new user only after both documents were written, and an
/// operation is done only after the server was told.
pub proof fn law_user_is_on_disk_before_it_runs(s: AddUser, p: Reply, r: AddUser)
    requires
        answers_to(s.asks(), p),
        call_ensures(AddUser::next, (s, p), r),
    ensures
        r is Announce ==> s is WriteTable && p is Output && p->Output_0.success,
        r is WriteTable ==> s is ReadTable,
        r is ReadTable ==> s is WriteConfig && p is Output && p->Output_0.success,
        r is WriteConfig ==> s is Backup && p is Output && p->Output_0.success,
        r is Done ==> s is Announce && p is Output && p->Output_0.success,
{
}

// ---- removing a user ----

/// The first client of that id, from the place `i` on.
pub open spec fn client_index(cs: Seq<ClientV>, id: Seq<char>, i: int) -> Option<int>
    decreases cs.len() - i,
{
    if i < 0 || i >= cs.len() {
        None
    } else if cs[i].id == id {
        Some(i)
    } else {
        client_index(cs, id, i + 1)
    }
}

/// The email of a user: that of its client, else the one of its name in the table.
pub open spec fn known_email(raw: JsonV, t: Seq<EntryV>, id: Seq<char>) -> Option<Seq<char>> {
    let cs = types::clients_of(raw);
    let of_client = match client_index(cs, id, 0) {
        Some(i) => cs[i].email,
        None => None,
    };
    match of_client {
        Some(e) => Some(e),
        None => match table::name_of(t, id) {
            Some(n) => Some(types::email_of(n)),
            None => None,
        },
    }
}

/// The email of a user.
pub fn find_email(config: &ServerConfig, table: &ClientsTable, uuid: &str) -> (r: Option<String>)
    ensures
        text::opt_text(r) == known_email(config@, table@, uuid@),
{
    let cs = config.clients();
    let ghost vs = types::client_views(cs@);
    let mut i: usize = 0;
    while i < cs.len() && !same(&cs[i].id, uuid)
        invariant
            i <= cs@.len(),
            vs == types::client_views(cs@),
            client_index(vs, uuid@, 0) == client_index(vs, uuid@, i as int),
        decreases cs.len() - i,
    {
        i += 1;
    }
    if i < cs.len() {
        assert(vs[i as int] == cs@[i as int]@);
        match &cs[i].email {
            Some(e) => {
                return Some(e.clone());
            },
            None => {},
        }
    }
    match table.name_for_uuid(uuid) {
        Some(n) => Some(XrayUser::email_from_name(n)),
        None => None,
    }
}

/// Removing a user: the running server is told first, so that no user keeps access that is gone
/// from disk.
#[derive(Debug)]
pub enum RemoveUser {
    ReadConfig { uuid: String },
    ReadTable { uuid: String, config: ServerConfig },
    Backup { uuid: String, email: String, config: ServerConfig, table: ClientsTable },
    Revoke { uuid: String, cmd: String, config: ServerConfig, table: ClientsTable },
    WriteConfig { uuid: String, cmd: String, table: ClientsTable },
    WriteTable { cmd: String },
    Done,
    Failed { error: AppError },
}

impl RemoveUser {
    /// What is asked for in this state; nothing at the end.
    pub open spec fn asks(self) -> Option<RequestV> {
        match self {
            RemoveUser::ReadConfig { .. } => Some(RequestV::ReadConfig),
            RemoveUser::ReadTable { .. } => Some(RequestV::ReadTable),
            RemoveUser::Backup { .. } => Some(RequestV::InContainer(backup_cmd())),
            RemoveUser::Revoke { cmd, .. } => Some(RequestV::InContainer(cmd@)),
            RemoveUser::WriteConfig { cmd, .. } => Some(RequestV::InContainer(cmd@)),
            RemoveUser::WriteTable { cmd } => Some(RequestV::InContainer(cmd@)),
            RemoveUser::Done => None,
            RemoveUser::Failed { .. } => None,
        }
    }

    /// The operation has failed with that message.
    pub open spec fn failed_with(self, m: Seq<char>) -> bool {
        self matches RemoveUser::Failed { error } && error::is_xray(error, m)
    }

    /// Begins to remove the user of that id.
    pub fn start(uuid: &str) -> (r: RemoveUser)
        ensures
            r matches RemoveUser::ReadConfig { uuid: u } && u@ == uuid@,
    {
        RemoveUser::ReadConfig { uuid: uuid.to_owned() }
    }

    /// What is asked for in this state.
    pub fn request(&self) -> (r: Option<Request>)
        ensures
            opt_request(r) == self.asks(),
    {
        match self {
            RemoveUser::ReadConfig { .. } => Some(Request::ReadConfig),
            RemoveUser::ReadTable { .. } => Some(Request::ReadTable),
            RemoveUser::Backup { .. } => Some(Request::InContainer(build_backup_cmd())),
            RemoveUser::Revoke { cmd, .. } => Some(Request::InContainer(cmd.clone())),
            RemoveUser::WriteConfig { cmd, .. } => Some(Request::InContainer(cmd.clone())),
            RemoveUser::WriteTable { cmd } => Some(Request::InContainer(cmd.clone())),
            RemoveUser::Done => None,
            RemoveUser::Failed { .. } => None,
        }
    }

    /// The next state, after a reply to what was asked for.
    pub fn next(self, reply: Reply) -> (r: RemoveUser)
        requires
            answers_to(self.asks(), reply),
        ensures
            match (self, reply) {
                (_, Reply::Failed(e)) => r == (RemoveUser::Failed { error: e }),
                (RemoveUser::ReadConfig { uuid }, Reply::Config(c)) => r == (
                RemoveUser::ReadTable { uuid, config: c }),
                (RemoveUser::ReadTable { uuid, config }, Reply::Table(t)) => match known_email(
                    config@,
                    t@,
                    uuid@,
                ) {
                    Some(m) => r matches RemoveUser::Backup { uuid: u, email, config: c, table: s }
                        && u == uuid && c == config && s == t && email@ == m,
                    None => r.failed_with(around("user "@, uuid@, " not found"@)),
                },
                (RemoveUser::Backup { uuid, email, config, table }, Reply::Output(o)) => if
                    !o.success {
                    r.failed_with(with_stderr("backup failed: "@, o))
                } else {
                    r matches RemoveUser::Revoke { uuid: u, cmd, config: c, table: t } && u == uuid
                        && c == config && t == table && cmd@ == commands::rmu_cmd(email@)
                },
                (RemoveUser::Revoke { uuid, config, table, .. }, Reply::Output(o)) => if
                    !o.success {
                    r.failed_with(with_stderr("rmu failed: "@, o))
                } else {
                    match types::clients_array(config@) {
                        Some(a) => r matches RemoveUser::WriteConfig { uuid: u, cmd, table: t } && u
                            == uuid && t == table && cmd@ == write_config_cmd(
                            types::with_clients(config@, a.filter(types::not_id(uuid@))),
                        ),
                        None => r.failed_with(types::no_clients(config@)),
                    }
                },
                (RemoveUser::WriteConfig { uuid, table, .. }, Reply::Output(o)) => if !o.success {
                    r.failed_with("failed to write server config: "@ + o.stderr@)
                } else {
                    r matches RemoveUser::WriteTable { cmd } && cmd@ == write_table_cmd(
                        table@.filter(table::other_than(uuid@)),
                    )
                },
                (RemoveUser::WriteTable { .. }, Reply::Output(o)) => if !o.success {
                    r.failed_with("failed to write clients table: "@ + o.stderr@)
                } else {
                    r is Done
                },
                _ => true,
            },
    {
        match (self, reply) {
            (_, Reply::Failed(error)) => RemoveUser::Failed { error },
            (RemoveUser::ReadConfig { uuid }, Reply::Config(config)) => RemoveUser::ReadTable {
                uuid,
                config,
            },
            (RemoveUser::ReadTable { uuid, config }, Reply::Table(table)) => {
                match find_email(&config, &table, &uuid) {
                    Some(email) => RemoveUser::Backup { uuid, email, config, table },
                    None => RemoveUser::Failed { error: named_error("user ", &uuid, " not found") },
                }
            },
            (RemoveUser::Backup { uuid, email, config, table }, Reply::Output(o)) => {
                if !o.success {
                    return RemoveUser::Failed { error: stderr_error("backup failed: ", &o) };
                }
                match build_rmu_cmd(&email) {
                    Ok(cmd) => RemoveUser::Revoke { uuid, cmd, config, table },
                    Err(error) => RemoveUser::Failed { error },
                }
            },
            (RemoveUser::Revoke { uuid, config, table, .. }, Reply::Output(o)) => {
                if !o.success {
                    return RemoveUser::Failed { error: stderr_error("rmu failed: ", &o) };
                }
                let mut config = config;
                match config.remove_client(&uuid) {
                    Ok(_) => {
                        let cmd = build_write_config_cmd(&config);
                        RemoveUser::WriteConfig { uuid, cmd, table }
                    },
                    Err(error) => RemoveUser::Failed { error },
                }
            },
            (RemoveUser::WriteConfig { uuid, table, .. }, Reply::Output(o)) => {
                if !o.success {
                    return RemoveUser::Failed {
                        error: message_error("failed to write server config: ", &o.stderr),
                    };
                }
                let mut table = table;
                table.remove(&uuid);
                RemoveUser::WriteTable { cmd: build_write_table_cmd(&table) }
            },
            (RemoveUser::WriteTable { .. }, Reply::Output(o)) => {
                if !o.success {
                    RemoveUser::Failed {
                        error: message_error("failed to write clients table: ", &o.stderr),
                    }
                } else {
                    RemoveUser::Done
                }
            },
            (s, _) => s,
        }
    }
}

/// The documents are written only after the running server has dropped the user.
pub proof fn law_access_is_revoked_before_disk(s: RemoveUser, p: Reply, r: RemoveUser)
    requires
        answers_to(s.asks(), p),
        call_ensures(RemoveUser::next, (s, p), r),
    ensures
        r is WriteConfig ==> s is Revoke && p is Output && p->Output_0.success,
        r is WriteTable ==> s is WriteConfig && p is Output && p->Output_0.success,
        r is Done ==> s is WriteTable && p is Output && p->Output_0.success,
        r is Revoke ==> s is Backup && p is Output && p->Output_0.success,
{
}

// ---- renaming a user ----

/// Renaming a user: both documents are changed in memory, and found to agree, before either is
/// written; the container is then restarted.
#[derive(Debug)]
pub enum RenameUser {
    ReadTable { container: String, old_name: String, new_name: String },
    ReadConfig { container: String, old_name: String, new_name: String, table: ClientsTable },
    Backup {
        container: String,
        old_name: String,
        new_name: String,
        uuid: String,
        table: ClientsTable,
        config: ServerConfig,
    },
    DropCounter { container: String, cmd: String, write_table: String, write_config: String },
    WriteTable { container: String, cmd: String, write_config: String },
    WriteConfig { container: String, cmd: String },
    Restart { cmd: String },
    Done,
    Failed { error: AppError },
}

impl RenameUser {
    /// What is asked for in this state; nothing at the end.
    pub open spec fn asks(self) -> Option<RequestV> {
        match self {
            RenameUser::ReadTable { .. } => Some(RequestV::ReadTable),
            RenameUser::ReadConfig { .. } => Some(RequestV::ReadConfig),
            RenameUser::Backup { .. } => Some(RequestV::InContainer(backup_cmd())),
            RenameUser::DropCounter { cmd, .. } => Some(RequestV::InContainer(cmd@)),
            RenameUser::WriteTable { cmd, .. } => Some(RequestV::InContainer(cmd@)),
            RenameUser::WriteConfig { cmd, .. } => Some(RequestV::InContainer(cmd@)),
            RenameUser::Restart { cmd } => Some(RequestV::OnHost(cmd@)),
            RenameUser::Done => None,
            RenameUser::Failed { .. } => None,
        }
    }

    /// The operation has failed with that message.
    pub open spec fn failed_with(self, m: Seq<char>) -> bool {
        self matches RenameUser::Failed { error } && error::is_xray(error, m)
    }

    /// Begins to give a user another name.
    pub fn start(container: &str, old_name: &str, new_name: &str) -> (r: RenameUser)
        ensures
            if text::trimmed(new_name@).len() == 0 {
                r.failed_with("new user name cannot be empty"@)
            } else {
                r matches RenameUser::ReadTable { container: c, old_name: o, new_name: n } && c@
                    == container@ && o@ == old_name@ && n@ == new_name@
            },
    {
        if trim(new_name).as_str().is_empty() {
            return RenameUser::Failed {
                error: AppError::Xray("new user name cannot be empty".to_owned()),
            };
        }
        RenameUser::ReadTable {
            container: container.to_owned(),
            old_name: old_name.to_owned(),
            new_name: new_name.to_owned(),
        }
    }

    /// What is asked for in this state.
    pub fn request(&self) -> (r: Option<Request>)
        ensures
            opt_request(r) == self.asks(),
    {
        match self {
            RenameUser::ReadTable { .. } => Some(Request::ReadTable),
            RenameUser::ReadConfig { .. } => Some(Request::ReadConfig),
            RenameUser::Backup { .. } => Some(Request::InContainer(build_backup_cmd())),
            RenameUser::DropCounter { cmd, .. } => Some(Request::InContainer(cmd.clone())),
            RenameUser::WriteTable { cmd, .. } => Some(Request::InContainer(cmd.clone())),
            RenameUser::WriteConfig { cmd, .. } => Some(Request::InContainer(cmd.clone())),
            RenameUser::Restart { cmd } => Some(Request::OnHost(cmd.clone())),
            RenameUser::Done => None,
            RenameUser::Failed { .. } => None,
        }
    }

    /// The next state, after a reply to what was asked for.
    pub fn next(self, reply: Reply) -> (r: RenameUser)
        requires
            answers_to(self.asks(), reply),
        ensures
            match (self, reply) {
                (
                    RenameUser::DropCounter { container, write_table, write_config, .. },
                    _,
                ) => r == (RenameUser::WriteTable { container, cmd: write_table, write_config }),
                (_, Reply::Failed(e)) => r == (RenameUser::Failed { error: e }),
                (RenameUser::ReadTable { container, old_name, new_name }, Reply::Table(t)) => r == (
                RenameUser::ReadConfig { container, old_name, new_name, table: t }),
                (
                    RenameUser::ReadConfig { container, old_name, new_name, table },
                    Reply::Config(c),
                ) => match table::name_index(table@, old_name@, 0) {
                    None => r.failed_with(around("user '"@, old_name@, "' not found"@)),
                    Some(i) => if table::name_index(table@, new_name@, 0) is Some {
                        r.failed_with(around("user '"@, new_name@, "' already exists"@))
                    } else {
                        r matches RenameUser::Backup {
                            container: k,
                            old_name: o,
                            new_name: n,
                            uuid,
                            table: t,
                            config,
                        } && k == container && o == old_name && n == new_name && t == table
                            && config == c && uuid@ == table@[i].id
                    },
                },
                (
                    RenameUser::Backup { container, old_name, new_name, uuid, table, config },
                    Reply::Output(o),
                ) => if !o.success {
                    r.failed_with(with_stderr("backup failed: "@, o))
                } else {
                    match types::clients_array(config@) {
                        None => r.failed_with(types::no_clients(config@)),
                        Some(a) => match types::first_id(a, uuid@, 0) {
                            None => r.failed_with(
                                around("user UUID '"@, uuid@, "' not found in server.json"@),
                            ),
                            Some(i) => r matches RenameUser::DropCounter {
                                container: k,
                                cmd,
                                write_table,
                                write_config,
                            } && k == container && cmd@ == commands::rmu_cmd(
                                types::email_of(old_name@),
                            ) && write_table@ == write_table_cmd(
                                renamed_table(table@, uuid@, new_name@),
                            ) && write_config@ == write_config_cmd(
                                types::with_clients(
                                    config@,
                                    a.update(
                                        i,
                                        a[i].put(
                                            "email"@,
                                            JsonV::Str(types::email_of(new_name@)),
                                        ),
                                    ),
                                ),
                            ),
                        },
                    }
                },
                (
                    RenameUser::WriteTable { container, write_config, .. },
                    Reply::Output(o),
                ) => if !o.success {
                    r.failed_with("failed to write clients table: "@ + o.stderr@)
                } else {
                    r == (RenameUser::WriteConfig { container, cmd: write_config })
                },
                (RenameUser::WriteConfig { container, .. }, Reply::Output(o)) => if !o.success {
                    r.failed_with("failed to write server config: "@ + o.stderr@)
                } else {
                    r matches RenameUser::Restart { cmd } && cmd@ == commands::restart_cmd(
                        container@,
                    )
                },
                (RenameUser::Restart { .. }, Reply::Output(o)) => if !o.success {
                    r.failed_with(with_stderr("failed to restart container: "@, o))
                } else {
                    r is Done
                },
                _ => true,
            },
    {
        match (self, reply) {
            (RenameUser::DropCounter { container, write_table, write_config, .. }, _) => {
                RenameUser::WriteTable { container, cmd: write_table, write_config }
            },
            (_, Reply::Failed(error)) => RenameUser::Failed { error },
            (RenameUser::ReadTable { container, old_name, new_name }, Reply::Table(table)) => {
                RenameUser::ReadConfig { container, old_name, new_name, table }
            },
            (
                RenameUser::ReadConfig { container, old_name, new_name, table },
                Reply::Config(config),
            ) => {
                let found: Option<String> = match table.uuid_for_name(&old_name) {
                    Some(id) => Some(id.to_owned()),
                    None => None,
                };
                match found {
                    None => RenameUser::Failed {
                        error: named_error("user '", &old_name, "' not found"),
                    },
                    Some(uuid) => {
                        if table.uuid_for_name(&new_name).is_some() {
                            RenameUser::Failed {
                                error: named_error("user '", &new_name, "' already exists"),
                            }
                        } else {
                            RenameUser::Backup {
                                container,
                                old_name,
                                new_name,
                                uuid,
                                table,
                                config,
                            }
                        }
                    },
                }
            },
            (
                RenameUser::Backup { container, old_name, new_name, uuid, table, config },
                Reply::Output(o),
            ) => {
                if !o.success {
                    return RenameUser::Failed { error: stderr_error("backup failed: ", &o) };
                }
                let mut table = table;
                let mut config = config;
                table.rename(&uuid, &new_name);
                let new_email = XrayUser::email_from_name(&new_name);
                match config.update_client_email(&uuid, &new_email) {
                    Err(error) => RenameUser::Failed { error },
                    Ok(false) => RenameUser::Failed {
                        error: named_error("user UUID '", &uuid, "' not found in server.json"),
                    },
                    Ok(true) => {
                        match build_rmu_cmd(&XrayUser::email_from_name(&old_name)) {
                            Err(error) => RenameUser::Failed { error },
                            Ok(cmd) => RenameUser::DropCounter {
                                container,
                                cmd,
                                write_table: build_write_table_cmd(&table),
                                write_config: build_write_config_cmd(&config),
                            },
                        }
                    },
                }
            },
            (RenameUser::WriteTable { container, write_config, .. }, Reply::Output(o)) => {
                if !o.success {
                    RenameUser::Failed {
                        error: message_error("failed to write clients table: ", &o.stderr),
                    }
                } else {
                    RenameUser::WriteConfig { container, cmd: write_config }
                }
            },
            (RenameUser::WriteConfig { container, .. }, Reply::Output(o)) => {
                if !o.success {
                    RenameUser::Failed {
                        error: message_error("failed to write server config: ", &o.stderr),
                    }
                } else {
                    RenameUser::Restart { cmd: build_restart_cmd(&container) }
                }
            },
            (RenameUser::Restart { .. }, Reply::Output(o)) => {
                if !o.success {
                    RenameUser::Failed { error: stderr_error("failed to restart container: ", &o) }
                } else {
                    RenameUser::Done
                }
            },
            (s, _) => s,
        }
    }
}

/// The table in which the first entry of that id has another name.
pub open spec fn renamed_table(t: Seq<EntryV>, id: Seq<char>, name: Seq<char>) -> Seq<EntryV> {
    match table::entry_index(t, id, 0) {
        Some(i) => t.update(i, table::renamed(t[i], name)),
        None => t,
    }
}

/// Nothing is written before both documents were found to know the user, and the container is
/// restarted only after both were written.
pub proof fn law_rename_checks_before_it_writes(s: RenameUser, p: Reply, r: RenameUser)
    requires
        answers_to(s.asks(), p),
        call_ensures(RenameUser::next, (s, p), r),
    ensures
        r is DropCounter ==> s is Backup && (types::clients_array(
            s->Backup_config@,
        ) matches Some(a) && types::first_id(a, s->Backup_uuid@, 0) is Some),
        r is WriteTable ==> s is DropCounter,
        r is WriteConfig ==> s is WriteTable && p is Output && p->Output_0.success,
        r is Restart ==> s is WriteConfig && p is Output && p->Output_0.success,
        r is Done ==> s is Restart && p is Output && p->Output_0.success,
{
}

// ---- restoring a backup ----

/// The backup to restore: the one that was asked for if it is listed, else the newest.
pub open spec fn chosen_backup(
    backups: Seq<Seq<char>>,
    asked: Option<Seq<char>>,
) -> Result<Seq<char>, Seq<char>> {
    if backups.len() == 0 {
        Err("no timestamped backups found"@)
    } else {
        match asked {
            Some(t) => if backups.contains(t) {
                Ok(t)
            } else {
                Err(around("backup with timestamp '"@, t, "' not found"@))
            },
            None => Ok(backups[0]),
        }
    }
}

/// Chooses the backup to restore from a list with the newest first.
pub fn choose_backup(backups: &Vec<String>, asked: &Option<String>) -> (r: Result<String, AppError>)
    ensures
        match chosen_backup(text::texts(backups@), text::opt_text(*asked)) {
            Ok(t) => r matches Ok(s) && s@ == t,
            Err(m) => r matches Err(e) && error::is_xray(e, m),
        },
{
    let ghost bs = text::texts(backups@);
    if backups.len() == 0 {
        return Err(AppError::Xray("no timestamped backups found".to_owned()));
    }
    match asked {
        None => Ok(backups[0].clone()),
        Some(t) => {
            let mut i: usize = 0;
            while i < backups.len()
                invariant
                    i <= backups@.len(),
                    bs == text::texts(backups@),
                    backups@.len() > 0,
                    text::opt_text(*asked) == Some(t@),
                    forall|j: int| 0 <= j < i ==> bs[j] != t@,
                decreases backups.len() - i,
            {
                if same(&backups[i], t) {
                    assert(bs[i as int] == t@);
                    return Ok(t.clone());
                }
                i += 1;
            }
            Err(named_error("backup with timestamp '", t, "' not found"))
        },
    }
}

/// Restoring a backup: it has to be listed and complete before it replaces anything, and the
/// container is then restarted.
#[derive(Debug)]
pub enum RestoreConfig {
    List { container: String, asked: Option<String> },
    Validate { container: String, timestamp: String, cmd: String },
    Copy { container: String, timestamp: String, cmd: String },
    Restart { timestamp: String, cmd: String },
    Done { timestamp: String },
    Failed { error: AppError },
}

/// The command that lists the backups.
pub open spec fn list_cmd() -> Seq<char> {
    "sh -c 'ls -t "@ + SERVER_CONFIG_PATH@ + ".*.bak 2>/dev/null || true'"@
}

/// The command that tests for the table of a backup.
pub open spec fn validate_cmd(t: Seq<char>) -> Seq<char> {
    "test -f "@ + CLIENTS_TABLE_PATH@ + "."@ + t + ".bak"@
}

/// The command that copies both files of a backup back.
pub open spec fn restore_cmd(t: Seq<char>) -> Seq<char> {
    "sh -c 'cp "@ + SERVER_CONFIG_PATH@ + "."@ + t + ".bak "@ + SERVER_CONFIG_PATH@ + " && cp "@
        + CLIENTS_TABLE_PATH@ + "."@ + t + ".bak "@ + CLIENTS_TABLE_PATH@ + "'"@
}

impl RestoreConfig {
    /// A state that an operation can be in: what was chosen is a time.
    pub open spec fn wf(self) -> bool {
        match self {
            RestoreConfig::Validate { timestamp, .. } => commands::timestamp(timestamp@),
            _ => true,
        }
    }

    /// What is asked for in this state; nothing at the end.
    pub open spec fn asks(self) -> Option<RequestV> {
        match self {
            RestoreConfig::List { .. } => Some(RequestV::InContainer(list_cmd())),
            RestoreConfig::Validate { cmd, .. } => Some(RequestV::InContainer(cmd@)),
            RestoreConfig::Copy { cmd, .. } => Some(RequestV::InContainer(cmd@)),
            RestoreConfig::Restart { cmd, .. } => Some(RequestV::OnHost(cmd@)),
            RestoreConfig::Done { .. } => None,
            RestoreConfig::Failed { .. } => None,
        }
    }

    /// The operation has failed with that message.
    pub open spec fn failed_with(self, m: Seq<char>) -> bool {
        self matches RestoreConfig::Failed { error } && error::is_xray(error, m)
    }

    /// Begins to restore the backup of that time, or the newest.
    pub fn start(container: &str, asked: Option<String>) -> (r: RestoreConfig)
        ensures
            r matches RestoreConfig::List { container: c, asked: a } && c@ == container@ && a
                == asked,
    {
        RestoreConfig::List { container: container.to_owned(), asked }
    }

    /// What is asked for in this state.
    pub fn request(&self) -> (r: Option<Request>)
        ensures
            opt_request(r) == self.asks(),
    {
        match self {
            RestoreConfig::List { .. } => Some(Request::InContainer(build_list_backups_cmd())),
            RestoreConfig::Validate { cmd, .. } => Some(Request::InContainer(cmd.clone())),
            RestoreConfig::Copy { cmd, .. } => Some(Request::InContainer(cmd.clone())),
            RestoreConfig::Restart { cmd, .. } => Some(Request::OnHost(cmd.clone())),
            RestoreConfig::Done { .. } => None,
            RestoreConfig::Failed { .. } => None,
        }
    }

    /// The next state, after a reply to what was asked for.
    pub fn next(self, reply: Reply) -> (r: RestoreConfig)
        requires
            answers_to(self.asks(), reply),
            self.wf(),
        ensures
            r.wf(),
            match (self, reply) {
                (_, Reply::Failed(e)) => r == (RestoreConfig::Failed { error: e }),
                (RestoreConfig::List { container, asked }, Reply::Output(o)) => match chosen_backup(
                    commands::timestamps_in(text::lines(o.stdout@)),
                    text::opt_text(asked),
                ) {
                    Ok(t) => r matches RestoreConfig::Validate { container: c, timestamp, cmd } && c
                        == container && timestamp@ == t && cmd@ == validate_cmd(t),
                    Err(m) => r.failed_with(m),
                },
                (RestoreConfig::Validate { container, timestamp, .. }, Reply::Output(o)) => if
                    !o.success {
                    r.failed_with(
                        around(
                            "incomplete backup: clientsTable."@,
                            timestamp@,
                            ".bak not found"@,
                        ),
                    )
                } else {
                    r matches RestoreConfig::Copy { container: c, timestamp: t, cmd } && c
                        == container && t == timestamp && cmd@ == restore_cmd(timestamp@)
                },
                (RestoreConfig::Copy { container, timestamp, .. }, Reply::Output(o)) => if
                    !o.success {
                    r.failed_with(with_stderr("restore failed: "@, o))
                } else {
                    r matches RestoreConfig::Restart { timestamp: t, cmd } && t == timestamp && cmd@
                        == commands::restart_cmd(container@)
                },
                (RestoreConfig::Restart { timestamp, .. }, Reply::Output(o)) => if !o.success {
                    r.failed_with(
                        with_stderr("failed to restart container after restore: "@, o),
                    )
                } else {
                    r == (RestoreConfig::Done { timestamp })
                },
                _ => true,
            },
    {
        match (self, reply) {
            (_, Reply::Failed(error)) => RestoreConfig::Failed { error },
            (RestoreConfig::List { container, asked }, Reply::Output(o)) => {
                let backups = parse_backup_timestamps(&o.stdout);
                proof {
                    commands::law_listed_backups_are_timestamps(text::lines(o.stdout@));
                }
                match choose_backup(&backups, &asked) {
                    Err(error) => RestoreConfig::Failed { error },
                    Ok(timestamp) => {
                        assert(text::texts(backups@).contains(timestamp@)) by {
                            assert(text::texts(backups@)[0] == backups@[0]@);
                        }
                        match build_validate_backup_cmd(&timestamp) {
                            Ok(cmd) => RestoreConfig::Validate { container, timestamp, cmd },
                            Err(error) => RestoreConfig::Failed { error },
                        }
                    },
                }
            },
            (RestoreConfig::Validate { container, timestamp, .. }, Reply::Output(o)) => {
                if !o.success {
                    return RestoreConfig::Failed {
                        error: named_error(
                            "incomplete backup: clientsTable.",
                            &timestamp,
                            ".bak not found",
                        ),
                    };
                }
                match build_restore_cmd(&timestamp) {
                    Ok(cmd) => RestoreConfig::Copy { container, timestamp, cmd },
                    Err(error) => RestoreConfig::Failed { error },
                }
            },
            (RestoreConfig::Copy { container, timestamp, .. }, Reply::Output(o)) => {
                if !o.success {
                    RestoreConfig::Failed { error: stderr_error("restore failed: ", &o) }
                } else {
                    RestoreConfig::Restart { timestamp, cmd: build_restart_cmd(&container) }
                }
            },
            (RestoreConfig::Restart { timestamp, .. }, Reply::Output(o)) => {
                if !o.success {
                    RestoreConfig::Failed {
                        error: stderr_error("failed to restart container after restore: ", &o),
                    }
                } else {
                    RestoreConfig::Done { timestamp }
                }
            },
            (s, _) => s,
        }
    }
}

/// Nothing is replaced unless the backup is listed and complete.
pub proof fn law_only_complete_backups_are_restored(s: RestoreConfig, p: Reply, r: RestoreConfig)
    requires
        answers_to(s.asks(), p),
        s.wf(),
        call_ensures(RestoreConfig::next, (s, p), r),
    ensures
        r is Copy ==> s is Validate && p is Output && p->Output_0.success,
        r is Validate ==> s is List,
        r is Restart ==> s is Copy && p is Output && p->Output_0.success,
        r is Done ==> s is Restart && p is Output && p->Output_0.success,
{
}

// ---- the rest ----

/// What the server states of itself.
#[derive(Debug, Clone)]
pub struct ServerInfo {
    pub version: String,
    pub uplink: u64,
    pub downlink: u64,
}

impl Default for ServerInfo {
    fn default() -> (r: ServerInfo)
        ensures
            r.version@ == Seq::<char>::empty() && r.uplink == 0 && r.downlink == 0,
    {
        ServerInfo { version: String::new(), uplink: 0, downlink: 0 }
    }
}

/// The counter in an answer, or zero.
pub open spec fn counter(output: Seq<char>) -> int {
    match answers::stat_in(answers::as_json(output), output) {
        Some(n) => n,
        None => 0,
    }
}

fn counter_of(output: &str) -> (r: u64)
    ensures
        r == counter(output@),
{
    match parse_stat_value(output) {
        Some(n) => n,
        None => 0,
    }
}

/// A text is a random (version 4) id: 36 characters, hyphens at four places and lower-case
/// hexadecimal digits elsewhere, of which two state the version and the variant.
pub open spec fn is_uuid(s: Seq<char>) -> bool {
    s.len() == 36 && (forall|i: int|
        0 <= i < 36 ==> if i == 8 || i == 13 || i == 18 || i == 23 {
            #[trigger] s[i] == '-'
        } else {
            text::is_digit(s[i]) || 'a' <= s[i] <= 'f'
        }) && s[14] == '4' && (s[19] == '8' || s[19] == '9' || s[19] == 'a' || s[19] == 'b')
}

/// Calls `uuid::Uuid::new_v4` and writes the id with hyphens. Which id it is, is left to chance, and
/// there is none where the system has no source of random bytes.
#[verifier::external_body]
fn random_uuid() -> (r: String)
    ensures
        is_uuid(r@),
{
    uuid::Uuid::new_v4().to_string()
}

/// The administration of the server in one container.
#[derive(Debug, Clone)]
pub struct XrayApiClient {
    pub container: String,
}

impl XrayApiClient {
    /// The administration of the server in that container.
    pub fn new(container: &str) -> (r: XrayApiClient)
        ensures
            r.container@ == container@,
    {
        XrayApiClient { container: container.to_owned() }
    }

    /// The users, from both documents.
    pub fn list_users(&self, config: &ServerConfig, table: &ClientsTable) -> (r: Vec<XrayUser>)
        ensures
            table::user_views(r@) == table::users_of(config@, table@),
    {
        merge_users(config, table)
    }

    /// Begins to add a user of that name under a new id.
    pub fn add_user(&self, name: &str) -> (r: AddUser)
        ensures
            match name_fault(name@) {
                Some(m) => r.failed_with(m),
                None => r matches AddUser::ReadConfig { name: n, uuid } && n@ == name@ && is_uuid(
                    uuid@,
                ),
            },
    {
        AddUser::start(name, &random_uuid())
    }

    /// Begins to remove the user of that id.
    pub fn remove_user(&self, uuid: &str) -> (r: RemoveUser)
        ensures
            r matches RemoveUser::ReadConfig { uuid: u } && u@ == uuid@,
    {
        RemoveUser::start(uuid)
    }

    /// Begins to give a user another name.
    pub fn rename_user(&self, old_name: &str, new_name: &str) -> (r: RenameUser)
        ensures
            if text::trimmed(new_name@).len() == 0 {
                r.failed_with("new user name cannot be empty"@)
            } else {
                r matches RenameUser::ReadTable { container: c, old_name: o, new_name: n } && c@
                    == self.container@ && o@ == old_name@ && n@ == new_name@
            },
    {
        RenameUser::start(&self.container, old_name, new_name)
    }

    /// Begins to restore a backup.
    pub fn restore_config(&self, timestamp: Option<String>) -> (r: RestoreConfig)
        ensures
            r matches RestoreConfig::List { container: c, asked } && c@ == self.container@ && asked
                == timestamp,
    {
        RestoreConfig::start(&self.container, timestamp)
    }

    /// A user's traffic, from the answers for either direction. A counter that is missing is zero.
    pub fn get_user_stats(&self, up: &CommandOutput, down: &CommandOutput) -> (r: TrafficStats)
        ensures
            r.uplink == counter(up.stdout@),
            r.downlink == counter(down.stdout@),
    {
        TrafficStats { uplink: counter_of(&up.stdout), downlink: counter_of(&down.stdout) }
    }

    /// The number of a user's connections, from the answer. One that is missing is zero.
    pub fn get_online_count(&self, answer: &CommandOutput) -> (r: u32)
        ensures
            r == (match answers::online_in(
                answers::as_json(answer.stdout@),
                answer.stdout@,
            ) {
                Some(n) => n,
                None => 0,
            }),
    {
        match parse_online_count(&answer.stdout) {
            Some(n) => n,
            None => 0,
        }
    }

    /// The addresses of a user, from the answer.
    pub fn get_online_ips(&self, answer: &CommandOutput) -> (r: Vec<String>)
        ensures
            answers::are_ips(
                text::texts(r@),
                answers::as_json(answer.stdout@),
                answer.stdout@,
            ),
    {
        parse_online_ip_list(&answer.stdout)
    }

    /// Whether the statistics can be had, from the answer to a question for a counter.
    pub fn probe_stats_api(&self, answer: &CommandOutput) -> (r: bool)
        ensures
            r == answer.success,
    {
        answer.success
    }

    /// What the server states of itself, from the answers for its version and its traffic.
    pub fn get_server_info(
        &self,
        version: &CommandOutput,
        up: &CommandOutput,
        down: &CommandOutput,
    ) -> (r: ServerInfo)
        ensures
            r.version@ == answers::version_in(version.stdout@),
            r.uplink == counter(up.stdout@),
            r.downlink == counter(down.stdout@),
    {
        ServerInfo {
            version: parse_version(&version.stdout),
            uplink: counter_of(&up.stdout),
            downlink: counter_of(&down.stdout),
        }
    }

    /// Whether a backup was made, from the answer.
    pub fn backup_config(&self, answer: &CommandOutput) -> (r: Result<(), AppError>)
        ensures
            match r {
                Ok(()) => answer.success,
                Err(e) => !answer.success && error::is_xray(
                    e,
                    with_stderr("backup failed: "@, *answer),
                ),
            },
    {
        if answer.success {
            Ok(())
        } else {
            Err(stderr_error("backup failed: ", answer))
        }
    }

    /// The backups, newest first, from the listing.
    pub fn list_backups(&self, answer: &CommandOutput) -> (r: Vec<String>)
        ensures
            text::texts(r@) == commands::timestamps_in(text::lines(answer.stdout@)),
    {
        parse_backup_timestamps(&answer.stdout)
    }

    /// The time by which a backup was named, from the answer.
    pub fn backup_config_timestamped(&self, answer: &CommandOutput) -> (r: Result<String, AppError>)
        ensures
            match r {
                Ok(t) => answer.success && t@ == text::trimmed(answer.stdout@),
                Err(e) => !answer.success && error::is_xray(
                    e,
                    with_stderr("timestamped backup failed: "@, *answer),
                ),
            },
    {
        if answer.success {
            Ok(trim(&answer.stdout))
        } else {
            Err(stderr_error("timestamped backup failed: ", answer))
        }
    }
}

} // verus!
