//! The application: what keys and messages do to the screens, and what they set in motion.
//!
//! Handling a key or a message yields effects, which the caller carries out. The widgets of the
//! dashboard, of the dialogs and of the bot's form take their keys before this state does; what
//! they make of a key is an argument here.

use crate::backend::VlessUrlIntent;
use crate::config;
use crate::config::{Config, ConfigV};
use crate::decimal;
use crate::text;
use crate::text::{byte_len, cat3, fit};
use crate::ui::setup;
use crate::ui::setup::{SetupState, SetupV};
use crate::ui::states;
use crate::ui::states::{
    AddUserState, AddUserV, DashboardState, DashboardV, QrViewState, TelegramSetupState,
    TelegramSetupV, UserDetailState, UserDetailV,
};
use crate::xray::table;
use crate::xray::types::{UserV, XrayUser};
use vstd::prelude::*;

pub mod keys;
pub mod laws;
pub mod messages;
pub mod screens;

verus! {

/// The screens.
#[derive(Debug, Clone, Copy, PartialEq, Eq, Structural)]
pub enum Screen {
    Setup,
    Dashboard,
    UserDetail,
    AddUser,
    QrView,
    TelegramSetup,
}

/// How long the dashboard is shown before it is refreshed, in milliseconds.
pub const REFRESH_INTERVAL_MS: u64 = 5000;

/// Something that is set in motion.
#[derive(Debug)]
pub enum Effect {
    /// Fetch what the dashboard shows.
    FetchDashboard { api_check_done: bool, fetch_version: bool },
    FetchOnlineIps { uuid: String, email: String },
    /// Move the selection of the dashboard.
    SelectNext,
    SelectPrevious,
    /// Hand the dashboard its users.
    ShowUsers(Vec<XrayUser>),
    TestConnection(Config),
    /// Save the configuration of the setup form.
    SaveSetup(Config),
    /// Save the configuration before the bot is deployed with that token.
    SaveTelegram(String),
    /// Copy a text to the clipboard.
    Copy(String),
    VlessUrl { uuid: String, name: String, intent: VlessUrlIntent },
    AddUser(String),
    DeleteUser(String),
    DeployBot(String),
}

pub enum EffectV {
    FetchDashboard(bool, bool),
    FetchOnlineIps(Seq<char>, Seq<char>),
    SelectNext,
    SelectPrevious,
    ShowUsers(Seq<UserV>),
    TestConnection(ConfigV),
    SaveSetup(ConfigV),
    SaveTelegram(Seq<char>),
    Copy(Seq<char>),
    VlessUrl(Seq<char>, Seq<char>, VlessUrlIntent),
    AddUser(Seq<char>),
    DeleteUser(Seq<char>),
    DeployBot(Seq<char>),
}

impl View for Effect {
    type V = EffectV;

    open spec fn view(&self) -> EffectV {
        match self {
            Effect::FetchDashboard { api_check_done, fetch_version } => EffectV::FetchDashboard(
                *api_check_done,
                *fetch_version,
            ),
            Effect::FetchOnlineIps { uuid, email } => EffectV::FetchOnlineIps(uuid@, email@),
            Effect::SelectNext => EffectV::SelectNext,
            Effect::SelectPrevious => EffectV::SelectPrevious,
            Effect::ShowUsers(u) => EffectV::ShowUsers(table::user_views(u@)),
            Effect::TestConnection(c) => EffectV::TestConnection(c@),
            Effect::SaveSetup(c) => EffectV::SaveSetup(c@),
            Effect::SaveTelegram(t) => EffectV::SaveTelegram(t@),
            Effect::Copy(t) => EffectV::Copy(t@),
            Effect::VlessUrl { uuid, name, intent } => EffectV::VlessUrl(uuid@, name@, *intent),
            Effect::AddUser(n) => EffectV::AddUser(n@),
            Effect::DeleteUser(u) => EffectV::DeleteUser(u@),
            Effect::DeployBot(t) => EffectV::DeployBot(t@),
        }
    }
}

/// The meanings of the effects in a list.
pub open spec fn effect_views(s: Seq<Effect>) -> Seq<EffectV> {
    Seq::new(s.len(), |i: int| s[i]@)
}

pub(crate) fn no_effects() -> (r: Vec<Effect>)
    ensures
        effect_views(r@) == Seq::<EffectV>::empty(),
{
    let v: Vec<Effect> = Vec::new();
    assert(effect_views(v@) =~= Seq::empty());
    v
}

pub(crate) fn one_effect(e: Effect) -> (r: Vec<Effect>)
    ensures
        effect_views(r@) == seq![e@],
{
    let mut v: Vec<Effect> = Vec::new();
    v.push(e);
    assert(effect_views(v@) =~= seq![e@]);
    v
}

pub(crate) fn both_effects(a: Vec<Effect>, b: Vec<Effect>) -> (r: Vec<Effect>)
    ensures
        effect_views(r@) == effect_views(a@) + effect_views(b@),
{
    let mut r = a;
    let mut more = b;
    r.append(&mut more);
    assert(effect_views(r@) =~= effect_views(a@) + effect_views(b@));
    r
}

// ---- texts ----

/// A message cut at a limit of bytes, never within a character, with dots where it was cut.
pub open spec fn truncated(s: Seq<char>, max: nat) -> Seq<char> {
    if text::bytes(s) <= max {
        s
    } else {
        text::fitted(s, max) + "..."@
    }
}

/// Truncate a message to a number of bytes.
pub fn truncate_msg(msg: &str, max: usize) -> (r: String)
    ensures
        r@ == truncated(msg@, max as nat),
{
    if byte_len(msg) <= max {
        return msg.to_owned();
    }
    let mut s = fit(msg, max);
    s.append("...");
    s
}

/// A number below a hundred with two digits.
pub open spec fn two_digits(n: nat) -> Seq<char> {
    seq![decimal::digit(n / 10), decimal::digit(n % 10)]
}

/// The time of day in UTC, from the seconds of the Unix epoch.
pub open spec fn clock(secs: nat) -> Seq<char> {
    two_digits(secs % 86400 / 3600) + ":"@ + two_digits(secs % 3600 / 60) + ":"@ + two_digits(
        secs % 60,
    ) + " UTC"@
}

fn push_two(s: &mut String, n: u64)
    requires
        n < 100,
    ensures
        final(s)@ == old(s)@ + two_digits(n as nat),
{
    let ghost before = s@;
    let a: u8 = 48 + (n / 10) as u8;
    let b: u8 = 48 + (n % 10) as u8;
    s.push(a as char);
    s.push(b as char);
    assert(s@ =~= before + two_digits(n as nat));
}

/// The time of day in UTC, from the seconds of the Unix epoch.
pub fn chrono_free_timestamp(secs: u64) -> (r: String)
    ensures
        r@ == clock(secs as nat),
{
    let mut s = String::new();
    push_two(&mut s, secs % 86400 / 3600);
    s.append(":");
    push_two(&mut s, secs % 3600 / 60);
    s.append(":");
    push_two(&mut s, secs % 60);
    s.append(" UTC");
    assert(s@ =~= clock(secs as nat));
    s
}

// ---- state ----

/// The state of the application.
#[derive(Debug)]
pub struct App {
    pub screen: Screen,
    pub running: bool,
    pub status_message: String,
    pub setup_state: SetupState,
    pub dashboard_state: DashboardState,
    pub add_user_state: AddUserState,
    pub user_detail_state: UserDetailState,
    pub qr_view_state: QrViewState,
    pub telegram_setup_state: TelegramSetupState,
    pub config: Config,
    /// Whether a fetch of the dashboard is under way.
    pub pending_refresh: bool,
    pub initial_load_done: bool,
    /// Whether the API was found to be enabled.
    pub api_check_done: bool,
    /// Whether the newest version was asked for in this session.
    pub version_check_done: bool,
    /// Whether a change was made since the fetch that is under way was begun.
    pub refresh_after_mutation: bool,
    /// The name of the user that is being added.
    pub pending_add_name: Option<String>,
    /// The id of the user that is being deleted.
    pub pending_delete_uuid: Option<String>,
    pub pending_test: bool,
    /// The configuration that is being tested.
    pub tested_config: Option<Config>,
    pub pending_deploy: bool,
}

pub struct AppV {
    pub screen: Screen,
    pub running: bool,
    pub status: Seq<char>,
    pub setup: SetupV,
    pub dashboard: DashboardV,
    pub add_user: AddUserV,
    pub detail: UserDetailV,
    pub qr: Option<(Seq<char>, Seq<char>)>,
    pub telegram: TelegramSetupV,
    pub config: ConfigV,
    pub pending_refresh: bool,
    pub initial_load_done: bool,
    pub api_check_done: bool,
    pub version_check_done: bool,
    pub refresh_after_mutation: bool,
    pub pending_add_name: Option<Seq<char>>,
    pub pending_delete_uuid: Option<Seq<char>>,
    pub pending_test: bool,
    pub tested_config: Option<ConfigV>,
    pub pending_deploy: bool,
}

/// The meaning of a configuration that may be missing.
pub open spec fn opt_config(c: Option<Config>) -> Option<ConfigV> {
    match c {
        Some(x) => Some(x@),
        None => None,
    }
}

impl View for App {
    type V = AppV;

    open spec fn view(&self) -> AppV {
        AppV {
            screen: self.screen,
            running: self.running,
            status: self.status_message@,
            setup: self.setup_state@,
            dashboard: self.dashboard_state@,
            add_user: self.add_user_state@,
            detail: self.user_detail_state@,
            qr: states::qr_view(self.qr_view_state),
            telegram: self.telegram_setup_state@,
            config: self.config@,
            pending_refresh: self.pending_refresh,
            initial_load_done: self.initial_load_done,
            api_check_done: self.api_check_done,
            version_check_done: self.version_check_done,
            refresh_after_mutation: self.refresh_after_mutation,
            pending_add_name: text::opt_text(self.pending_add_name),
            pending_delete_uuid: text::opt_text(self.pending_delete_uuid),
            pending_test: self.pending_test,
            tested_config: opt_config(self.tested_config),
            pending_deploy: self.pending_deploy,
        }
    }
}

/// There is somewhere to connect to.
pub open spec fn connectable(c: ConfigV) -> bool {
    c.ssh_host is Some || c.host is Some
}

/// The dashboard with the configured host.
pub open spec fn with_host(d: DashboardV, c: ConfigV) -> DashboardV {
    match c.host {
        Some(h) => DashboardV { server_host: h, ..d },
        None => match c.ssh_host {
            Some(h) => DashboardV { server_host: h, ..d },
            None => d,
        },
    }
}

/// The state in which the application begins.
pub open spec fn initial(c: ConfigV) -> AppV {
    AppV {
        screen: if connectable(c) {
            Screen::Dashboard
        } else {
            Screen::Setup
        },
        running: true,
        status: Seq::empty(),
        setup: setup::setup_from(c),
        dashboard: with_host(states::default_dashboard(), c),
        add_user: states::default_add_user(),
        detail: states::opened_detail(None),
        qr: None,
        telegram: states::telegram_from(c.telegram_token, c.telegram_admin_chat_id),
        config: c,
        pending_refresh: false,
        initial_load_done: false,
        api_check_done: false,
        version_check_done: false,
        refresh_after_mutation: false,
        pending_add_name: None,
        pending_delete_uuid: None,
        pending_test: false,
        tested_config: None,
        pending_deploy: false,
    }
}

/// A state and what is set in motion.
pub struct StepV {
    pub app: AppV,
    pub effects: Seq<EffectV>,
}

/// Nothing is set in motion.
pub open spec fn quiet(app: AppV) -> StepV {
    StepV { app, effects: Seq::empty() }
}

/// One thing is set in motion.
pub open spec fn with_effect(app: AppV, e: EffectV) -> StepV {
    StepV { app, effects: seq![e] }
}

/// A refresh is begun, unless one is under way.
pub open spec fn refreshed(s: AppV) -> StepV {
    if s.pending_refresh {
        quiet(s)
    } else {
        with_effect(
            AppV { pending_refresh: true, status: "Refreshing..."@, ..s },
            EffectV::FetchDashboard(s.api_check_done, !s.version_check_done),
        )
    }
}

/// The state and the effects are those of the step.
pub open spec fn does(a: AppV, e: Seq<Effect>, s: StepV) -> bool {
    a == s.app && effect_views(e) == s.effects
}

/// The meaning of a result without a value.
pub open spec fn unit_result(r: Result<(), String>) -> Result<(), Seq<char>> {
    match r {
        Ok(_) => Ok(()),
        Err(e) => Err(e@),
    }
}

/// The name of a screen.
pub open spec fn label_of(s: Screen) -> Seq<char> {
    match s {
        Screen::Setup => "Setup"@,
        Screen::Dashboard => "Dashboard"@,
        Screen::UserDetail => "User Detail"@,
        Screen::AddUser => "Add User"@,
        Screen::QrView => "QR Code"@,
        Screen::TelegramSetup => "Telegram Bot"@,
    }
}

/// The keys of a screen.
pub open spec fn hints_of(s: Screen) -> Seq<char> {
    match s {
        Screen::Dashboard =>
        "[a]dd user  [d]elete  [r]efresh  [t]elegram bot  [q]uit  [Enter] detail"@,
        Screen::Setup => "[Tab] next field  [Enter] confirm  [Esc] quit"@,
        Screen::UserDetail => "[Esc] back  [d]elete  [c]opy URL  [q] QR code"@,
        Screen::AddUser => "[Enter] confirm  [Esc] cancel"@,
        Screen::QrView => "[Esc/q] back"@,
        Screen::TelegramSetup => "[Tab] next field  [Enter] confirm  [Esc] back"@,
    }
}

impl App {
    /// The setup form has a field in focus.
    pub open spec fn wf(&self) -> bool {
        self.setup_state.wf()
    }

    /// The application as it begins with a configuration.
    pub fn with_config(config: Config) -> (r: App)
        ensures
            r@ == initial(config@),
            r.wf(),
    {
        let has_config: bool = config.has_connection_info();
        let mut dashboard_state = DashboardState::default();
        if let Some(host) = &config.host {
            dashboard_state.server_host = host.clone();
        } else if let Some(ssh_host) = &config.ssh_host {
            dashboard_state.server_host = ssh_host.clone();
        }
        App {
            screen: if has_config {
                Screen::Dashboard
            } else {
                Screen::Setup
            },
            running: true,
            status_message: String::new(),
            setup_state: SetupState::from_config(&config),
            dashboard_state,
            add_user_state: AddUserState::default(),
            user_detail_state: UserDetailState::of(None),
            qr_view_state: QrViewState { shown: None },
            telegram_setup_state: TelegramSetupState::from_config(
                &config.telegram_token,
                config.telegram_admin_chat_id,
            ),
            config,
            pending_refresh: false,
            initial_load_done: false,
            api_check_done: false,
            version_check_done: false,
            refresh_after_mutation: false,
            pending_add_name: None,
            pending_delete_uuid: None,
            pending_test: false,
            tested_config: None,
            pending_deploy: false,
        }
    }

    /// The application as it begins with the configuration that is used where none is given, on
    /// the dashboard or on the setup form.
    pub fn new(has_config: bool) -> (r: App)
        ensures
            r@ == (AppV {
                screen: if has_config {
                    Screen::Dashboard
                } else {
                    Screen::Setup
                },
                setup: setup::default_setup(),
                ..initial(config::default_config())
            }),
            r.wf(),
    {
        let mut app = App::with_config(Config::default());
        app.setup_state = SetupState::default();
        app.screen =
        if has_config {
            Screen::Dashboard
        } else {
            Screen::Setup
        };
        app
    }

    /// Ends the application.
    pub fn quit(&mut self)
        ensures
            final(self)@ == (AppV { running: false, ..old(self)@ }),
            final(self).setup_state == old(self).setup_state,
    {
        self.running = false;
    }

    /// Begins a refresh, unless one is under way.
    pub fn trigger_refresh(&mut self) -> (r: Vec<Effect>)
        requires
            old(self).wf(),
        ensures
            does(final(self)@, r@, refreshed(old(self)@)),
            final(self).wf(),
    {
        if self.pending_refresh {
            return no_effects();
        }
        self.pending_refresh = true;
        self.status_message = "Refreshing...".to_owned();
        one_effect(
            Effect::FetchDashboard {
                api_check_done: self.api_check_done,
                fetch_version: !self.version_check_done,
            },
        )
    }


    /// Begins the first fetch, where the dashboard is what is shown first.
    pub fn begin(&mut self) -> (r: Vec<Effect>)
        requires
            old(self).wf(),
        ensures
            does(
                final(self)@,
                r@,
                if old(self)@.screen == Screen::Dashboard && !old(self)@.initial_load_done {
                    refreshed(old(self)@)
                } else {
                    quiet(old(self)@)
                },
            ),
            final(self).wf(),
    {
        if self.screen == Screen::Dashboard && !self.initial_load_done {
            self.trigger_refresh()
        } else {
            no_effects()
        }
    }

    /// Whether the dashboard is due for a refresh, that many milliseconds after the last one.
    pub fn should_refresh(&self, elapsed_ms: u64) -> (r: bool)
        ensures
            r == (elapsed_ms >= REFRESH_INTERVAL_MS),
    {
        elapsed_ms >= REFRESH_INTERVAL_MS
    }

    /// Refreshes the dashboard where it is shown and due.
    pub fn tick(&mut self, elapsed_ms: u64) -> (r: Vec<Effect>)
        requires
            old(self).wf(),
        ensures
            does(
                final(self)@,
                r@,
                if old(self)@.screen == Screen::Dashboard && elapsed_ms >= REFRESH_INTERVAL_MS {
                    refreshed(old(self)@)
                } else {
                    quiet(old(self)@)
                },
            ),
            final(self).wf(),
    {
        if self.screen == Screen::Dashboard && self.should_refresh(elapsed_ms)
            && !self.pending_refresh {
            self.trigger_refresh()
        } else {
            no_effects()
        }
    }

    /// The name of the screen that is shown.
    pub fn screen_label(&self) -> (r: &'static str)
        ensures
            r@ == label_of(self.screen),
    {
        match self.screen {
            Screen::Setup => "Setup",
            Screen::Dashboard => "Dashboard",
            Screen::UserDetail => "User Detail",
            Screen::AddUser => "Add User",
            Screen::QrView => "QR Code",
            Screen::TelegramSetup => "Telegram Bot",
        }
    }

    /// The keys of the screen that is shown.
    pub fn keybind_hints(&self) -> (r: String)
        ensures
            r@ == hints_of(self.screen),
    {
        match self.screen {
            Screen::Dashboard =>
            "[a]dd user  [d]elete  [r]efresh  [t]elegram bot  [q]uit  [Enter] detail".to_owned(),
            Screen::Setup => "[Tab] next field  [Enter] confirm  [Esc] quit".to_owned(),
            Screen::UserDetail => "[Esc] back  [d]elete  [c]opy URL  [q] QR code".to_owned(),
            Screen::AddUser => "[Enter] confirm  [Esc] cancel".to_owned(),
            Screen::QrView => "[Esc/q] back".to_owned(),
            Screen::TelegramSetup => "[Tab] next field  [Enter] confirm  [Esc] back".to_owned(),
        }
    }

    /// The text of the status bar: the message, where there is one, and the keys.
    pub fn status_bar(&self) -> (r: String)
        ensures
            r@ == if self.status_message@.len() == 0 {
                hints_of(self.screen)
            } else {
                self.status_message@ + " | "@ + hints_of(self.screen)
            },
    {
        let hints = self.keybind_hints();
        if text::chars_of(&self.status_message).len() == 0 {
            hints
        } else {
            cat3(&self.status_message, " | ", &hints)
        }
    }
}

} // verus!
