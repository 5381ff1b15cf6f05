//! Laws on the steps in which users are changed and backups restored.

use crate::error::AppError;
use crate::text;
use crate::xray::client::{
    AddUser, CommandOutput, RemoveUser, RenameUser, Reply, Request, RestoreConfig, XrayApiClient,
};
use crate::xray::commands::{
    build_backup_cmd, build_list_backups_cmd, build_restart_cmd, build_restore_cmd, build_rmu_cmd,
};
use crate::xray::table::ClientsTable;
use crate::xray::types::ServerConfig;
use vstd::prelude::*;

verus! {

// ---- beginning ----

/// **Every operation is begun for what it was asked for**: a new user under its name and a fresh id, a
/// removal for the id, a new name for the old one, and a restoration for the time, each in the
/// container of the client.
pub proof fn law_operations_begin_as_asked(
    c: XrayApiClient,
    container: &str,
    name: &str,
    id: &str,
    old_name: &str,
    asked: Option<String>,
    add: AddUser,
    remove: RemoveUser,
    rename: RenameUser,
    restore: RestoreConfig,
)
    requires
        call_ensures(XrayApiClient::new, (container,), c),
        call_ensures(XrayApiClient::add_user, (&c, name), add),
        call_ensures(XrayApiClient::remove_user, (&c, id), remove),
        call_ensures(XrayApiClient::rename_user, (&c, old_name, name), rename),
        call_ensures(XrayApiClient::restore_config, (&c, asked), restore),
        text::trimmed(name@).len() > 0,
        forall|i: int| 0 <= i < name@.len() ==> (#[trigger] name@[i]) != '@' && name@[i] != '>',
    ensures
        add matches AddUser::ReadConfig { name: n, uuid } && n@ == name@ && uuid@.len() == 36
            && uuid@[14] == '4',
        remove matches RemoveUser::ReadConfig { uuid } && uuid@ == id@,
        rename matches RenameUser::ReadTable { container: k, old_name: o, new_name: n } && k@
            == container@ && o@ == old_name@ && n@ == name@,
        restore matches RestoreConfig::List { container: k, asked: a } && k@ == container@ && a
            == asked,
{
    reveal_strlit(">>>");
    text::lemma_find_from(name@, ">>>"@, 0);
    if let Some(k) = text::find_from(name@, ">>>"@, 0) {
        assert(name@.subrange(k, k + 3)[0] == '>');
        assert(name@[k] == '>');
    }
}

/// **A blank new name is refused**, and so is a name that cannot be an email.
pub proof fn law_blank_names_are_refused(
    c: XrayApiClient,
    name: &str,
    old_name: &str,
    add: AddUser,
    rename: RenameUser,
)
    requires
        call_ensures(XrayApiClient::add_user, (&c, name), add),
        call_ensures(XrayApiClient::rename_user, (&c, old_name, name), rename),
    ensures
        text::trimmed(name@).len() == 0 ==> {
            &&& add matches AddUser::Failed { error: AppError::Xray(m) } && m@
                == "user name cannot be empty"@
            &&& rename matches RenameUser::Failed { error: AppError::Xray(m) } && m@
                == "new user name cannot be empty"@
        },
        text::trimmed(name@).len() > 0 && name@.contains('@') ==> (add matches AddUser::Failed {
            error: AppError::Xray(m),
        } && m@ == "user name must not contain '@' or '>>>'"@),
{
}

// ---- adding ----

/// **A user is added in order**: both files are backed up before anything is written; the configuration
/// is written before the table, and the running server is told last.
pub proof fn law_order_of_adding(
    name: String,
    uuid: String,
    config: ServerConfig,
    cmd: String,
    backup: String,
    o: CommandOutput,
    b: AddUser,
    c: AddUser,
    d: AddUser,
    q0: Option<Request>,
    q1: Option<Request>,
    q2: Option<Request>,
    q3: Option<Request>,
    q4: Option<Request>,
    q5: Option<Request>,
)
    requires
        o.success,
        call_ensures(build_backup_cmd, (), backup),
        call_ensures(AddUser::request, (&AddUser::ReadConfig { name, uuid },), q0),
        call_ensures(AddUser::request, (&AddUser::Backup { name, uuid, config },), q1),
        call_ensures(AddUser::request, (&AddUser::WriteConfig { name, uuid, cmd },), q2),
        call_ensures(
            AddUser::next,
            (AddUser::WriteConfig { name, uuid, cmd }, Reply::Output(o)),
            b,
        ),
        call_ensures(AddUser::request, (&b,), q3),
        call_ensures(AddUser::request, (&AddUser::WriteTable { name, uuid, cmd },), q4),
        call_ensures(
            AddUser::next,
            (AddUser::WriteTable { name, uuid, cmd }, Reply::Output(o)),
            c,
        ),
        call_ensures(AddUser::request, (&AddUser::Announce { uuid, cmd },), q5),
        call_ensures(AddUser::next, (AddUser::Announce { uuid, cmd }, Reply::Output(o)), d),
    ensures
        q0 == Some(Request::ReadConfig),
        q1 matches Some(Request::InContainer(s)) && s@ == backup@,
        q2 matches Some(Request::InContainer(s)) && s@ == cmd@,
        b == (AddUser::ReadTable { name, uuid }),
        q3 == Some(Request::ReadTable),
        q4 matches Some(Request::InContainer(s)) && s@ == cmd@,
        c matches AddUser::Announce { uuid: u, .. } && u@ == uuid@,
        q5 matches Some(Request::InContainer(s)) && s@ == cmd@,
        d matches AddUser::Done { uuid: u } && u@ == uuid@,
{
}

/// **Adding a user stops where a step fails**, with what the command said.
pub proof fn law_adding_stops_where_a_step_fails(
    name: String,
    uuid: String,
    config: ServerConfig,
    cmd: String,
    o: CommandOutput,
    s: AddUser,
    e: AppError,
    a: AddUser,
    b: AddUser,
    c: AddUser,
    d: AddUser,
    f: AddUser,
)
    requires
        !o.success,
        call_ensures(
            AddUser::next,
            (AddUser::Backup { name, uuid, config }, Reply::Output(o)),
            a,
        ),
        call_ensures(
            AddUser::next,
            (AddUser::WriteConfig { name, uuid, cmd }, Reply::Output(o)),
            b,
        ),
        call_ensures(
            AddUser::next,
            (AddUser::WriteTable { name, uuid, cmd }, Reply::Output(o)),
            c,
        ),
        call_ensures(AddUser::next, (AddUser::Announce { uuid, cmd }, Reply::Output(o)), d),
        call_ensures(AddUser::next, (s, Reply::Failed(e)), f),
    ensures
        a matches AddUser::Failed { error: AppError::Xray(m) } && m@ == "backup failed: "@
            + text::trimmed(o.stderr@),
        b matches AddUser::Failed { error: AppError::Xray(m) } && m@
            == "failed to write server config: "@ + o.stderr@,
        c matches AddUser::Failed { error: AppError::Xray(m) } && m@
            == "failed to write clients table: "@ + o.stderr@,
        d matches AddUser::Failed { error: AppError::Xray(m) } && m@ == "adu failed: "@
            + text::trimmed(o.stderr@),
        f == (AddUser::Failed { error: e }),
{
}

// ---- removing ----

/// **A user is removed in order**: both files are backed up, the running server forgets the email of
/// the user, and then the configuration and the table are written.
pub proof fn law_order_of_removing(
    uuid: String,
    email: String,
    mail: &str,
    config: ServerConfig,
    table: ClientsTable,
    cmd: String,
    backup: String,
    forget: Result<String, AppError>,
    o: CommandOutput,
    a: RemoveUser,
    b: RemoveUser,
    c: RemoveUser,
    d: RemoveUser,
    q0: Option<Request>,
    q1: Option<Request>,
    q2: Option<Request>,
    q3: Option<Request>,
)
    requires
        o.success,
        mail@ == email@,
        call_ensures(build_backup_cmd, (), backup),
        call_ensures(build_rmu_cmd, (mail,), forget),
        call_ensures(RemoveUser::request, (&RemoveUser::ReadConfig { uuid },), q0),
        call_ensures(
            RemoveUser::next,
            (RemoveUser::ReadConfig { uuid }, Reply::Config(config)),
            a,
        ),
        call_ensures(RemoveUser::request, (&a,), q1),
        call_ensures(
            RemoveUser::request,
            (&RemoveUser::Backup { uuid, email, config, table },),
            q2,
        ),
        call_ensures(
            RemoveUser::next,
            (RemoveUser::Backup { uuid, email, config, table }, Reply::Output(o)),
            b,
        ),
        call_ensures(RemoveUser::request, (&b,), q3),
        call_ensures(
            RemoveUser::next,
            (RemoveUser::WriteConfig { uuid, cmd, table }, Reply::Output(o)),
            c,
        ),
        call_ensures(RemoveUser::next, (RemoveUser::WriteTable { cmd }, Reply::Output(o)), d),
    ensures
        q0 == Some(Request::ReadConfig),
        a == (RemoveUser::ReadTable { uuid, config }),
        q1 == Some(Request::ReadTable),
        q2 matches Some(Request::InContainer(s)) && s@ == backup@,
        forget matches Ok(f) && (q3 matches Some(Request::InContainer(s)) && s@ == f@),
        b matches RemoveUser::Revoke { uuid: u, config: x, table: y, .. } && u == uuid && x
            == config && y == table,
        c is WriteTable,
        d is Done,
{
}

/// **Removing a user stops where a step fails**, with what the command said.
pub proof fn law_removing_stops_where_a_step_fails(
    uuid: String,
    email: String,
    config: ServerConfig,
    table: ClientsTable,
    cmd: String,
    o: CommandOutput,
    s: RemoveUser,
    e: AppError,
    a: RemoveUser,
    b: RemoveUser,
    c: RemoveUser,
    d: RemoveUser,
    f: RemoveUser,
)
    requires
        !o.success,
        call_ensures(
            RemoveUser::next,
            (RemoveUser::Backup { uuid, email, config, table }, Reply::Output(o)),
            a,
        ),
        call_ensures(
            RemoveUser::next,
            (RemoveUser::Revoke { uuid, cmd, config, table }, Reply::Output(o)),
            b,
        ),
        call_ensures(
            RemoveUser::next,
            (RemoveUser::WriteConfig { uuid, cmd, table }, Reply::Output(o)),
            c,
        ),
        call_ensures(RemoveUser::next, (RemoveUser::WriteTable { cmd }, Reply::Output(o)), d),
        call_ensures(RemoveUser::next, (s, Reply::Failed(e)), f),
    ensures
        a matches RemoveUser::Failed { error: AppError::Xray(m) } && m@ == "backup failed: "@
            + text::trimmed(o.stderr@),
        b matches RemoveUser::Failed { error: AppError::Xray(m) } && m@ == "rmu failed: "@
            + text::trimmed(o.stderr@),
        c matches RemoveUser::Failed { error: AppError::Xray(m) } && m@
            == "failed to write server config: "@ + o.stderr@,
        d matches RemoveUser::Failed { error: AppError::Xray(m) } && m@
            == "failed to write clients table: "@ + o.stderr@,
        f == (RemoveUser::Failed { error: e }),
{
}

// ---- renaming ----

/// **A user is renamed in order**: the table is written, then the configuration, and then the
/// container of the client is restarted; that the old counter cannot be dropped stops nothing.
pub proof fn law_order_of_renaming(
    container: String,
    name: &str,
    cmd: String,
    write_table: String,
    write_config: String,
    any: Reply,
    o: CommandOutput,
    restart: String,
    a: RenameUser,
    b: RenameUser,
    c: RenameUser,
    d: RenameUser,
    q1: Option<Request>,
    q2: Option<Request>,
    q3: Option<Request>,
)
    requires
        o.success,
        name@ == container@,
        call_ensures(build_restart_cmd, (name,), restart),
        call_ensures(
            RenameUser::next,
            (RenameUser::DropCounter { container, cmd, write_table, write_config }, any),
            a,
        ),
        call_ensures(RenameUser::request, (&a,), q1),
        call_ensures(RenameUser::next, (a, Reply::Output(o)), b),
        call_ensures(RenameUser::request, (&b,), q2),
        call_ensures(RenameUser::next, (b, Reply::Output(o)), c),
        call_ensures(RenameUser::request, (&c,), q3),
        call_ensures(RenameUser::next, (c, Reply::Output(o)), d),
    ensures
        q1 matches Some(Request::InContainer(s)) && s@ == write_table@,
        q2 matches Some(Request::InContainer(s)) && s@ == write_config@,
        q3 matches Some(Request::OnHost(s)) && s@ == restart@,
        d is Done,
{
}

/// **Renaming a user stops where a step fails**, with what the command said.
pub proof fn law_renaming_stops_where_a_step_fails(
    container: String,
    cmd: String,
    write_config: String,
    old_name: String,
    new_name: String,
    uuid: String,
    table: ClientsTable,
    config: ServerConfig,
    o: CommandOutput,
    e: AppError,
    s: RenameUser,
    a: RenameUser,
    b: RenameUser,
    c: RenameUser,
    d: RenameUser,
    f: RenameUser,
)
    requires
        !o.success,
        !(s is DropCounter),
        call_ensures(
            RenameUser::next,
            (
                RenameUser::Backup { container, old_name, new_name, uuid, table, config },
                Reply::Output(o),
            ),
            a,
        ),
        call_ensures(
            RenameUser::next,
            (RenameUser::WriteTable { container, cmd, write_config }, Reply::Output(o)),
            b,
        ),
        call_ensures(
            RenameUser::next,
            (RenameUser::WriteConfig { container, cmd }, Reply::Output(o)),
            c,
        ),
        call_ensures(RenameUser::next, (RenameUser::Restart { cmd }, Reply::Output(o)), d),
        call_ensures(RenameUser::next, (s, Reply::Failed(e)), f),
    ensures
        a matches RenameUser::Failed { error: AppError::Xray(m) } && m@ == "backup failed: "@
            + text::trimmed(o.stderr@),
        b matches RenameUser::Failed { error: AppError::Xray(m) } && m@
            == "failed to write clients table: "@ + o.stderr@,
        c matches RenameUser::Failed { error: AppError::Xray(m) } && m@
            == "failed to write server config: "@ + o.stderr@,
        d matches RenameUser::Failed { error: AppError::Xray(m) } && m@
            == "failed to restart container: "@ + text::trimmed(o.stderr@),
        f == (RenameUser::Failed { error: e }),
{
}

// ---- restoring ----

/// **A backup is restored in order**: it is looked for, tested for both files, copied back, and then
/// the container is restarted; its time is what comes of it.
pub proof fn law_order_of_restoring(
    container: String,
    name: &str,
    asked: Option<String>,
    timestamp: String,
    ts: &str,
    cmd: String,
    o: CommandOutput,
    listing: String,
    copy: Result<String, AppError>,
    restart: String,
    b: RestoreConfig,
    c: RestoreConfig,
    d: RestoreConfig,
    q0: Option<Request>,
    q1: Option<Request>,
    q2: Option<Request>,
    q3: Option<Request>,
)
    requires
        o.success,
        name@ == container@,
        ts@ == timestamp@,
        call_ensures(build_list_backups_cmd, (), listing),
        call_ensures(build_restore_cmd, (ts,), copy),
        copy is Ok,
        call_ensures(build_restart_cmd, (name,), restart),
        call_ensures(RestoreConfig::request, (&RestoreConfig::List { container, asked },), q0),
        call_ensures(
            RestoreConfig::request,
            (&RestoreConfig::Validate { container, timestamp, cmd },),
            q1,
        ),
        call_ensures(
            RestoreConfig::next,
            (RestoreConfig::Validate { container, timestamp, cmd }, Reply::Output(o)),
            b,
        ),
        call_ensures(RestoreConfig::request, (&b,), q2),
        call_ensures(RestoreConfig::next, (b, Reply::Output(o)), c),
        call_ensures(RestoreConfig::request, (&c,), q3),
        call_ensures(RestoreConfig::next, (c, Reply::Output(o)), d),
    ensures
        q0 matches Some(Request::InContainer(s)) && s@ == listing@,
        q1 matches Some(Request::InContainer(s)) && s@ == cmd@,
        q2 matches Some(Request::InContainer(s)) && s@ == copy->Ok_0@,
        q3 matches Some(Request::OnHost(s)) && s@ == restart@,
        d matches RestoreConfig::Done { timestamp: t } && t@ == timestamp@,
{
}

/// **Restoring stops where a step fails**, with what the command said.
pub proof fn law_restoring_stops_where_a_step_fails(
    container: String,
    timestamp: String,
    cmd: String,
    o: CommandOutput,
    e: AppError,
    s: RestoreConfig,
    a: RestoreConfig,
    b: RestoreConfig,
    c: RestoreConfig,
    f: RestoreConfig,
)
    requires
        !o.success,
        call_ensures(
            RestoreConfig::next,
            (RestoreConfig::Validate { container, timestamp, cmd }, Reply::Output(o)),
            a,
        ),
        call_ensures(
            RestoreConfig::next,
            (RestoreConfig::Copy { container, timestamp, cmd }, Reply::Output(o)),
            b,
        ),
        call_ensures(
            RestoreConfig::next,
            (RestoreConfig::Restart { timestamp, cmd }, Reply::Output(o)),
            c,
        ),
        call_ensures(RestoreConfig::next, (s, Reply::Failed(e)), f),
    ensures
        a matches RestoreConfig::Failed { error: AppError::Xray(m) } && m@
            == "incomplete backup: clientsTable."@ + timestamp@ + ".bak not found"@,
        b matches RestoreConfig::Failed { error: AppError::Xray(m) } && m@ == "restore failed: "@
            + text::trimmed(o.stderr@),
        c matches RestoreConfig::Failed { error: AppError::Xray(m) } && m@
            == "failed to restart container after restore: "@ + text::trimmed(o.stderr@),
        f == (RestoreConfig::Failed { error: e }),
{
}

// ---- answers ----

/// **A backup was made where its command succeeded**, under the time that it printed; the statistics
/// can be had where their command succeeded.
pub proof fn law_answers_to_the_client(
    c: XrayApiClient,
    o: CommandOutput,
    made: Result<(), AppError>,
    timed: Result<String, AppError>,
    up: bool,
)
    requires
        call_ensures(XrayApiClient::backup_config, (&c, &o), made),
        call_ensures(XrayApiClient::backup_config_timestamped, (&c, &o), timed),
        call_ensures(XrayApiClient::probe_stats_api, (&c, &o), up),
    ensures
        up == o.success,
        o.success ==> made is Ok && (timed matches Ok(t) && t@ == text::trimmed(o.stdout@)),
        !o.success ==> {
            &&& made matches Err(AppError::Xray(m)) && m@ == "backup failed: "@ + text::trimmed(
                o.stderr@,
            )
            &&& timed matches Err(AppError::Xray(m)) && m@ == "timestamped backup failed: "@
                + text::trimmed(o.stderr@)
        },
{
}

} // verus!
