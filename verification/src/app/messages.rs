//! What the results of background work do to the screens.

use crate::app;
use crate::app::{
    chrono_free_timestamp, no_effects, one_effect, truncate_msg, App, AppV,
    Effect, EffectV, Screen, StepV,
};
use crate::backend::{AddedUser, BackendMsg, DashboardData, VlessUrlIntent};
use crate::config::Config;
use crate::text;
use crate::text::{cat2, cat3, same, trim};
use crate::ui::setup;
use crate::ui::setup::{SetupV, TestResult, TestV};
use crate::ui::states::{
    AddResultV, AddUserResult, AddUserV, DashboardV, DeployStatus, DeployV, DetailMode,
    DetailModeV, QrViewState, TelegramSetupV, UserDetailV,
};
use crate::xray::table;
use vstd::prelude::*;

verus! {

// ---- what a message does ----

/// An error, cut to fit the status bar.
pub open spec fn error_status(e: Seq<char>) -> Seq<char> {
    "Error: "@ + app::truncated(e, 60)
}

/// The dashboard as a fetch found it.
pub open spec fn shown_data(s: AppV, d: DashboardData, now: nat) -> AppV {
    AppV {
        dashboard: DashboardV {
            server_version: d.server_info.version@,
            container_uptime: d.container_uptime@,
            latest_version: if d.version_was_fetched {
                text::opt_text(d.latest_version)
            } else {
                s.dashboard.latest_version
            },
            total_upload: d.server_info.uplink,
            total_download: d.server_info.downlink,
            loading: false,
            ..s.dashboard
        },
        version_check_done: s.version_check_done || d.version_was_fetched,
        initial_load_done: true,
        api_check_done: true,
        status: "Last update: "@ + app::clock(now),
        ..s
    }
}

/// A fetch of the dashboard has ended. Where something was changed meanwhile, its result is
/// discarded and another fetch is begun.
pub open spec fn dashboard_step(
    s: AppV,
    result: Result<DashboardData, String>,
    now: nat,
) -> StepV {
    let t = AppV { pending_refresh: false, ..s };
    if s.refresh_after_mutation {
        app::refreshed(AppV { refresh_after_mutation: false, ..t })
    } else {
        match result {
            Ok(d) => app::with_effect(
                shown_data(t, d, now),
                EffectV::ShowUsers(table::user_views(d.users@)),
            ),
            Err(e) => app::quiet(
                AppV {
                    dashboard: DashboardV { loading: false, ..t.dashboard },
                    status: error_status(e@),
                    ..t
                },
            ),
        }
    }
}

/// A test of the connection has ended. Its result is shown on the setup form, unless the form was
/// edited since the test was begun.
pub open spec fn test_step(s: AppV, result: Result<String, String>) -> StepV {
    let t = AppV { pending_test: false, tested_config: None, ..s };
    let stale = match s.tested_config {
        Some(c) => c != setup::config_of(s.setup),
        None => false,
    };
    if s.screen != Screen::Setup || stale {
        app::quiet(t)
    } else {
        app::quiet(
            AppV {
                setup: SetupV {
                    test_result: match result {
                        Ok(v) => TestV::Success("Connected! "@ + v@),
                        Err(e) => TestV::Error(app::truncated(e@, 60)),
                    },
                    ..t.setup
                },
                ..t
            },
        )
    }
}

/// After a change the dashboard is fetched again, once the fetch that is under way has ended.
pub open spec fn changed(s: AppV) -> StepV {
    if s.pending_refresh {
        app::quiet(AppV { refresh_after_mutation: true, ..s })
    } else {
        app::refreshed(s)
    }
}

/// The dialog still shows the user that was to be added.
pub open spec fn adding(s: AppV, name: Seq<char>) -> bool {
    s.screen == Screen::AddUser && s.pending_add_name == Some(name) && text::trimmed(
        s.add_user.name,
    ) == name
}

/// Adding a user has ended.
pub open spec fn added_step(s: AppV, result: Result<AddedUser, String>) -> StepV {
    let t = AppV { pending_add_name: None, ..s };
    match result {
        Ok(u) => changed(
            AppV {
                add_user: if adding(s, u.name@) {
                    AddUserV {
                        result: AddResultV::Success(u.name@, u.uuid@),
                        cached_vless_url: if u.vless_url@.len() == 0 {
                            None
                        } else {
                            Some(u.vless_url@)
                        },
                        ..s.add_user
                    }
                } else {
                    s.add_user
                },
                status: "User '"@ + u.name@ + "' added successfully"@,
                ..t
            },
        ),
        Err(e) => app::quiet(
            AppV {
                add_user: if adding(s, text::trimmed(s.add_user.name)) {
                    AddUserV {
                        result: AddResultV::Error(app::truncated(e@, 50)),
                        ..s.add_user
                    }
                } else {
                    s.add_user
                },
                status: error_status(e@),
                ..t
            },
        ),
    }
}

/// The detail view shows the user with that id.
pub open spec fn showing(s: AppV, uuid: Seq<char>) -> bool {
    s.screen == Screen::UserDetail && match s.detail.user {
        Some(u) => u.uuid == uuid,
        None => false,
    }
}

/// The dialog shows that the user with that id was added.
pub open spec fn added(s: AppV, uuid: Seq<char>) -> bool {
    s.screen == Screen::AddUser && match s.add_user.result {
        AddResultV::Success(_, u) => u == uuid,
        _ => false,
    }
}

/// A URL was made. It is kept and used where its user is still shown, and discarded elsewhere.
pub open spec fn url_step(
    s: AppV,
    result: Result<AddedUser, String>,
    intent: VlessUrlIntent,
) -> StepV {
    match result {
        Err(e) => app::quiet(AppV { status: error_status(e@), ..s }),
        Ok(u) => if !showing(s, u.uuid@) && !added(s, u.uuid@) {
            app::quiet(s)
        } else {
            let t = if s.screen == Screen::AddUser {
                AppV {
                    add_user: AddUserV { cached_vless_url: Some(u.vless_url@), ..s.add_user },
                    ..s
                }
            } else {
                AppV {
                    detail: UserDetailV { cached_vless_url: Some(u.vless_url@), ..s.detail },
                    ..s
                }
            };
            match intent {
                VlessUrlIntent::Clipboard => app::with_effect(
                    AppV { status: "Copied to clipboard (OSC 52)"@, ..t },
                    EffectV::Copy(u.vless_url@),
                ),
                VlessUrlIntent::Qr => app::quiet(
                    AppV { qr: Some((u.name@, u.vless_url@)), screen: Screen::QrView, ..t },
                ),
            }
        },
    }
}

/// Deleting a user has ended.
pub open spec fn deleted_step(s: AppV, result: Result<String, String>) -> StepV {
    let t = AppV { pending_delete_uuid: None, ..s };
    match result {
        Ok(uuid) => changed(
            AppV {
                detail: if showing(s, uuid@) {
                    UserDetailV { mode: DetailModeV::DeleteSuccess, ..s.detail }
                } else {
                    s.detail
                },
                status: "User deleted"@,
                ..t
            },
        ),
        Err(e) => app::quiet(
            AppV {
                detail: if s.pending_delete_uuid matches Some(uuid) && showing(s, uuid) {
                    UserDetailV {
                        mode: DetailModeV::DeleteError(app::truncated(e@, 50)),
                        ..s.detail
                    }
                } else {
                    s.detail
                },
                status: "Delete failed: "@ + app::truncated(e@, 60),
                ..t
            },
        ),
    }
}

/// The addresses of a user were fetched. They are shown where the user still is.
pub open spec fn ips_step(
    s: AppV,
    result: Result<(String, Vec<String>), (String, String)>,
) -> StepV {
    app::quiet(
        match result {
            Ok(p) => if showing(s, p.0@) {
                AppV {
                    detail: UserDetailV {
                        online_ips: text::texts(p.1@),
                        online_ips_error: None,
                        ..s.detail
                    },
                    ..s
                }
            } else {
                s
            },
            Err(p) => if showing(s, p.0@) {
                AppV {
                    detail: UserDetailV {
                        online_ips_error: Some(app::truncated(p.1@, 40)),
                        ..s.detail
                    },
                    ..s
                }
            } else {
                s
            },
        },
    )
}

/// The deployment of the bot has ended.
pub open spec fn deployed_step(s: AppV, result: Result<String, String>) -> StepV {
    let t = AppV { pending_deploy: false, ..s };
    app::quiet(
        if s.screen != Screen::TelegramSetup {
            t
        } else {
            match result {
                Ok(m) => AppV {
                    telegram: TelegramSetupV {
                        deploy_status: DeployV::Success(m@),
                        ..t.telegram
                    },
                    status: m@,
                    ..t
                },
                Err(e) => AppV {
                    telegram: TelegramSetupV {
                        deploy_status: DeployV::Error(app::truncated(e@, 60)),
                        ..t.telegram
                    },
                    status: "Deploy failed: "@ + app::truncated(e@, 60),
                    ..t
                },
            }
        },
    )
}

/// What a message does to the application, at a time in seconds.
pub open spec fn msg_step(s: AppV, msg: BackendMsg, now: nat) -> StepV {
    match msg {
        BackendMsg::DashboardData(r) => dashboard_step(s, r, now),
        BackendMsg::ConnectionTest(r) => test_step(s, r),
        BackendMsg::UserAdded(r) => added_step(s, r),
        BackendMsg::UserDeleted(r) => deleted_step(s, r),
        BackendMsg::VlessUrl(r, intent) => url_step(s, r, intent),
        BackendMsg::OnlineIps(r) => ips_step(s, r),
        BackendMsg::DeployProgress(d) => app::quiet(
            if s.screen == Screen::TelegramSetup {
                AppV { telegram: TelegramSetupV { deploy_status: d@, ..s.telegram }, ..s }
            } else {
                s
            },
        ),
        BackendMsg::DeployBot(r) => deployed_step(s, r),
    }
}

/// What messages do, one after the other.
pub open spec fn msgs_step(s: AppV, msgs: Seq<BackendMsg>, now: nat) -> StepV
    decreases msgs.len(),
{
    if msgs.len() == 0 {
        app::quiet(s)
    } else {
        let a = msg_step(s, msgs[0], now);
        let b = msgs_step(a.app, msgs.skip(1), now);
        StepV { app: b.app, effects: a.effects + b.effects }
    }
}

fn same_opt(a: &Option<String>, b: &Option<String>) -> (r: bool)
    ensures
        r == (text::opt_text(*a) == text::opt_text(*b)),
{
    match (a, b) {
        (Some(x), Some(y)) => same(x, y),
        (None, None) => true,
        _ => false,
    }
}

/// Whether two configurations say the same.
pub fn same_config(a: &Config, b: &Config) -> (r: bool)
    ensures
        r == (a@ == b@),
{
    same_opt(&a.host, &b.host) && a.port == b.port && same(&a.user, &b.user) && same_opt(
        &a.key_path,
        &b.key_path,
    ) && same_opt(&a.ssh_host, &b.ssh_host) && same(&a.container, &b.container) && same_opt(
        &a.telegram_token,
        &b.telegram_token,
    ) && a.telegram_admin_chat_id == b.telegram_admin_chat_id && same(&a.bot_image, &b.bot_image)
        && same_opt(&a.snapshot_dir, &b.snapshot_dir) && same_opt(
        &a.bridge_agent_url,
        &b.bridge_agent_url,
    )
}

fn error_text(e: &str) -> (r: String)
    ensures
        r@ == error_status(e@),
{
    cat2("Error: ", &truncate_msg(e, 60))
}

// ---- messages ----

impl App {
    fn show_data(&mut self, d: DashboardData, now: u64) -> (r: Vec<Effect>)
        requires
            old(self).wf(),
        ensures
            app::does(
                final(self)@,
                r@,
                app::with_effect(
                    shown_data(old(self)@, d, now as nat),
                    EffectV::ShowUsers(table::user_views(d.users@)),
                ),
            ),
            final(self).wf(),
    {
        self.dashboard_state.server_version = d.server_info.version;
        self.dashboard_state.container_uptime = d.container_uptime;
        if d.version_was_fetched {
            self.dashboard_state.latest_version = d.latest_version;
            self.version_check_done = true;
        }
        self.dashboard_state.total_upload = d.server_info.uplink;
        self.dashboard_state.total_download = d.server_info.downlink;
        self.dashboard_state.loading = false;
        self.initial_load_done = true;
        self.api_check_done = true;
        self.status_message = cat2("Last update: ", &chrono_free_timestamp(now));
        one_effect(Effect::ShowUsers(d.users))
    }

    fn dashboard_fetched(&mut self, result: Result<DashboardData, String>, now: u64) -> (r: Vec<
        Effect,
    >)
        requires
            old(self).wf(),
        ensures
            app::does(final(self)@, r@, dashboard_step(old(self)@, result, now as nat)),
            final(self).wf(),
    {
        self.pending_refresh = false;
        if self.refresh_after_mutation {
            self.refresh_after_mutation = false;
            return self.trigger_refresh();
        }
        match result {
            Ok(d) => self.show_data(d, now),
            Err(e) => {
                self.dashboard_state.loading = false;
                self.status_message = error_text(&e);
                no_effects()
            },
        }
    }

    fn connection_tested(&mut self, result: Result<String, String>) -> (r: Vec<Effect>)
        requires
            old(self).wf(),
        ensures
            app::does(final(self)@, r@, test_step(old(self)@, result)),
            final(self).wf(),
    {
        self.pending_test = false;
        let stale: bool = match &self.tested_config {
            Some(c) => !same_config(c, &self.setup_state.to_config()),
            None => false,
        };
        self.tested_config = None;
        if self.screen != Screen::Setup || stale {
            return no_effects();
        }
        self.setup_state.test_result =
        match result {
            Ok(v) => TestResult::Success(cat2("Connected! ", &v)),
            Err(e) => TestResult::Error(truncate_msg(&e, 60)),
        };
        no_effects()
    }

    fn refresh_after_change(&mut self) -> (r: Vec<Effect>)
        requires
            old(self).wf(),
        ensures
            app::does(final(self)@, r@, changed(old(self)@)),
            final(self).wf(),
    {
        if self.pending_refresh {
            self.refresh_after_mutation = true;
            no_effects()
        } else {
            self.trigger_refresh()
        }
    }

    fn is_adding(&self, name: &str) -> (r: bool)
        ensures
            r == adding(self@, name@),
    {
        self.screen == Screen::AddUser && (match &self.pending_add_name {
            Some(n) => same(n, name),
            None => false,
        }) && same(&trim(&self.add_user_state.name), name)
    }

    fn user_added(&mut self, result: Result<AddedUser, String>) -> (r: Vec<Effect>)
        requires
            old(self).wf(),
        ensures
            app::does(final(self)@, r@, added_step(old(self)@, result)),
            final(self).wf(),
    {
        match result {
            Ok(u) => {
                let current: bool = self.is_adding(&u.name);
                self.pending_add_name = None;
                self.status_message = cat3("User '", &u.name, "' added successfully");
                if current {
                    self.add_user_state.result =
                    AddUserResult::Success { name: u.name, uuid: u.uuid };
                    self.add_user_state.cached_vless_url =
                    if text::chars_of(&u.vless_url).len() == 0 {
                        None
                    } else {
                        Some(u.vless_url)
                    };
                }
                self.refresh_after_change()
            },
            Err(e) => {
                let current: bool = self.is_adding(&trim(&self.add_user_state.name));
                self.pending_add_name = None;
                if current {
                    self.add_user_state.result = AddUserResult::Error(truncate_msg(&e, 50));
                }
                self.status_message = error_text(&e);
                no_effects()
            },
        }
    }

    fn is_showing(&self, uuid: &str) -> (r: bool)
        ensures
            r == showing(self@, uuid@),
    {
        self.screen == Screen::UserDetail && match &self.user_detail_state.user {
            Some(u) => same(&u.uuid, uuid),
            None => false,
        }
    }

    fn has_added(&self, uuid: &str) -> (r: bool)
        ensures
            r == added(self@, uuid@),
    {
        self.screen == Screen::AddUser && match &self.add_user_state.result {
            AddUserResult::Success { name: _, uuid: u } => same(u, uuid),
            _ => false,
        }
    }

    fn url_made(&mut self, result: Result<AddedUser, String>, intent: VlessUrlIntent) -> (r: Vec<
        Effect,
    >)
        requires
            old(self).wf(),
        ensures
            app::does(final(self)@, r@, url_step(old(self)@, result, intent)),
            final(self).wf(),
    {
        match result {
            Err(e) => {
                self.status_message = error_text(&e);
                no_effects()
            },
            Ok(u) => {
                if !self.is_showing(&u.uuid) && !self.has_added(&u.uuid) {
                    return no_effects();
                }
                if self.screen == Screen::AddUser {
                    self.add_user_state.cached_vless_url = Some(u.vless_url.clone());
                } else {
                    self.user_detail_state.cached_vless_url = Some(u.vless_url.clone());
                }
                match intent {
                    VlessUrlIntent::Clipboard => {
                        self.status_message = "Copied to clipboard (OSC 52)".to_owned();
                        one_effect(Effect::Copy(u.vless_url))
                    },
                    VlessUrlIntent::Qr => {
                        self.qr_view_state = QrViewState { shown: Some((u.name, u.vless_url)) };
                        self.screen = Screen::QrView;
                        no_effects()
                    },
                }
            },
        }
    }

    fn user_deleted(&mut self, result: Result<String, String>) -> (r: Vec<Effect>)
        requires
            old(self).wf(),
        ensures
            app::does(final(self)@, r@, deleted_step(old(self)@, result)),
            final(self).wf(),
    {
        match result {
            Ok(uuid) => {
                if self.is_showing(&uuid) {
                    self.user_detail_state.mode = DetailMode::DeleteSuccess;
                }
                self.pending_delete_uuid = None;
                self.status_message = "User deleted".to_owned();
                self.refresh_after_change()
            },
            Err(e) => {
                let current: bool = match &self.pending_delete_uuid {
                    Some(uuid) => self.is_showing(uuid),
                    None => false,
                };
                self.pending_delete_uuid = None;
                if current {
                    self.user_detail_state.mode = DetailMode::DeleteError(truncate_msg(&e, 50));
                }
                self.status_message = cat2("Delete failed: ", &truncate_msg(&e, 60));
                no_effects()
            },
        }
    }

    fn ips_fetched(
        &mut self,
        result: Result<(String, Vec<String>), (String, String)>,
    ) -> (r: Vec<Effect>)
        requires
            old(self).wf(),
        ensures
            app::does(final(self)@, r@, ips_step(old(self)@, result)),
            final(self).wf(),
    {
        match result {
            Ok((uuid, ips)) => {
                if self.is_showing(&uuid) {
                    self.user_detail_state.online_ips = ips;
                    self.user_detail_state.online_ips_error = None;
                }
            },
            Err((uuid, e)) => {
                if self.is_showing(&uuid) {
                    self.user_detail_state.online_ips_error = Some(truncate_msg(&e, 40));
                }
            },
        }
        no_effects()
    }

    fn bot_deployed(&mut self, result: Result<String, String>) -> (r: Vec<Effect>)
        requires
            old(self).wf(),
        ensures
            app::does(final(self)@, r@, deployed_step(old(self)@, result)),
            final(self).wf(),
    {
        self.pending_deploy = false;
        if self.screen == Screen::TelegramSetup {
            match result {
                Ok(m) => {
                    self.telegram_setup_state.deploy_status = DeployStatus::Success(m.clone());
                    self.status_message = m;
                },
                Err(e) => {
                    self.telegram_setup_state.deploy_status =
                    DeployStatus::Error(truncate_msg(&e, 60));
                    self.status_message = cat2("Deploy failed: ", &truncate_msg(&e, 60));
                },
            }
        }
        no_effects()
    }

    /// Takes the result of background work, at a time in seconds.
    pub fn process_backend_message(&mut self, msg: BackendMsg, now: u64) -> (r: Vec<Effect>)
        requires
            old(self).wf(),
        ensures
            app::does(final(self)@, r@, msg_step(old(self)@, msg, now as nat)),
            final(self).wf(),
    {
        match msg {
            BackendMsg::DashboardData(r) => self.dashboard_fetched(r, now),
            BackendMsg::ConnectionTest(r) => self.connection_tested(r),
            BackendMsg::UserAdded(r) => self.user_added(r),
            BackendMsg::UserDeleted(r) => self.user_deleted(r),
            BackendMsg::VlessUrl(r, intent) => self.url_made(r, intent),
            BackendMsg::OnlineIps(r) => self.ips_fetched(r),
            BackendMsg::DeployProgress(d) => {
                if self.screen == Screen::TelegramSetup {
                    self.telegram_setup_state.deploy_status = d;
                }
                no_effects()
            },
            BackendMsg::DeployBot(r) => self.bot_deployed(r),
        }
    }

    /// Takes the results that have come in, in their order.
    pub fn process_backend_messages(&mut self, msgs: Vec<BackendMsg>, now: u64) -> (r: Vec<Effect>)
        requires
            old(self).wf(),
        ensures
            app::does(final(self)@, r@, msgs_step(old(self)@, msgs@, now as nat)),
            final(self).wf(),
        decreases msgs@.len(),
    {
        let mut msgs = msgs;
        if msgs.len() == 0 {
            return no_effects();
        }
        let ghost all = msgs@;
        let msg = msgs.remove(0);
        assert(msgs@ =~= all.skip(1));
        let first = self.process_backend_message(msg, now);
        let second = self.process_backend_messages(msgs, now);
        app::both_effects(first, second)
    }
}

} // verus!
