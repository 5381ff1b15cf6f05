//! What keys do to the screens.

use crate::app;
use crate::app::{
    both_effects, no_effects, one_effect, App, AppV, Effect, EffectV, Screen,
    StepV,
};
use crate::backend::VlessUrlIntent;
use crate::config::{Config, ConfigV};
use crate::decimal;
use crate::decimal::parse_i64;
use crate::text;
use crate::text::{cat2, cat3, char_is_digit, chars_of, trim};
use crate::ui::keys::{KeyCode, KeyEvent};
use crate::ui::setup;
use crate::ui::setup::{SetupV, TestResult, TestV};
use crate::ui::states;
use crate::ui::states::{
    AddResultV, AddUserResult, AddUserState, AddUserV, DashboardV, DeployStatus, DeployV,
    DetailMode, DetailModeV, QrViewState, TelegramSetupState, TelegramSetupV, UserDetailState,
    UserDetailV,
};
use crate::xray::types::{UserV, XrayUser};
use vstd::prelude::*;

verus! {

/// The detail view of a user is opened, and its addresses are fetched.
pub open spec fn opened(s: AppV, u: UserV, mode: DetailModeV) -> StepV {
    app::with_effect(
        AppV {
            detail: UserDetailV { mode, ..states::opened_detail(Some(u)) },
            screen: Screen::UserDetail,
            ..s
        },
        EffectV::FetchOnlineIps(u.uuid, u.email),
    )
}

/// A key on the dashboard, on which that user is selected.
pub open spec fn dashboard_key(s: AppV, code: KeyCode, selected: Option<UserV>) -> StepV {
    match code {
        KeyCode::Char('q') => app::quiet(AppV { running: false, ..s }),
        KeyCode::Char('r') => app::refreshed(s),
        KeyCode::Char('j') => app::with_effect(s, EffectV::SelectNext),
        KeyCode::Down => app::with_effect(s, EffectV::SelectNext),
        KeyCode::Char('k') => app::with_effect(s, EffectV::SelectPrevious),
        KeyCode::Up => app::with_effect(s, EffectV::SelectPrevious),
        KeyCode::Enter => match selected {
            Some(u) => opened(s, u, DetailModeV::View),
            None => app::quiet(s),
        },
        KeyCode::Char('a') => app::quiet(
            AppV { add_user: states::default_add_user(), screen: Screen::AddUser, ..s },
        ),
        KeyCode::Char('d') => match selected {
            Some(u) => opened(s, u, DetailModeV::DeleteConfirm),
            None => app::quiet(s),
        },
        KeyCode::Char('t') => app::quiet(
            AppV {
                telegram: states::telegram_from(
                    s.config.telegram_token,
                    s.config.telegram_admin_chat_id,
                ),
                screen: Screen::TelegramSetup,
                ..s
            },
        ),
        _ => app::quiet(s),
    }
}

/// What a form lacks that cannot be connected with.
pub open spec fn no_host_message() -> TestV {
    TestV::Error("Please enter a host or SSH config alias"@)
}

/// A test of the connection that was asked for is begun, unless one is under way.
pub open spec fn setup_test(s: AppV) -> StepV {
    if !s.setup.test_requested {
        app::quiet(s)
    } else {
        let t = AppV { setup: SetupV { test_requested: false, ..s.setup }, ..s };
        let c = setup::config_of(s.setup);
        if s.pending_test {
            app::quiet(t)
        } else if !app::connectable(c) {
            app::quiet(AppV { setup: SetupV { test_result: no_host_message(), ..t.setup }, ..t })
        } else {
            app::with_effect(
                AppV {
                    pending_test: true,
                    tested_config: Some(c),
                    setup: SetupV { test_result: TestV::Testing, ..t.setup },
                    ..t
                },
                EffectV::TestConnection(c),
            )
        }
    }
}

/// The configuration that a form gives, with the credentials of the bot, which it does not show.
pub open spec fn kept_config(s: AppV) -> ConfigV {
    ConfigV {
        telegram_token: s.config.telegram_token,
        telegram_admin_chat_id: s.config.telegram_admin_chat_id,
        ..setup::config_of(s.setup)
    }
}

/// A key on the setup form. A configuration that is to be saved is handed out; what follows waits
/// until it was saved.
pub open spec fn setup_key(s: AppV, key: KeyEvent) -> StepV {
    if key.code == KeyCode::Esc {
        app::quiet(AppV { running: false, ..s })
    } else {
        let t = AppV { setup: setup::setup_after(s.setup, key).0, ..s };
        if t.setup.save_requested {
            let u = AppV { setup: SetupV { save_requested: false, ..t.setup }, ..t };
            let c = kept_config(u);
            if !app::connectable(c) {
                app::quiet(AppV { setup: SetupV { test_result: no_host_message(), ..u.setup }, ..u })
            } else {
                app::with_effect(u, EffectV::SaveSetup(c))
            }
        } else {
            setup_test(t)
        }
    }
}

/// After the configuration of the form was saved, or could not be.
pub open spec fn setup_saved_step(s: AppV, c: ConfigV, result: Result<(), Seq<char>>) -> StepV {
    match result {
        Ok(_) => {
            let t = app::refreshed(
                AppV {
                    config: c,
                    dashboard: DashboardV { loading: true, ..app::with_host(s.dashboard, c) },
                    screen: Screen::Dashboard,
                    status: "Config saved. Connecting..."@,
                    ..s
                },
            );
            let u = setup_test(t.app);
            StepV { app: u.app, effects: t.effects + u.effects }
        },
        Err(e) => setup_test(
            AppV {
                setup: SetupV { test_result: TestV::Error("Save failed: "@ + e), ..s.setup },
                ..s
            },
        ),
    }
}

/// The URL of the user that is shown is copied, or fetched to be copied.
pub open spec fn copy_step(s: AppV) -> StepV {
    match s.detail.user {
        Some(u) => match s.detail.cached_vless_url {
            Some(url) => app::with_effect(
                AppV { status: "Copied to clipboard (OSC 52)"@, ..s },
                EffectV::Copy(url),
            ),
            None => app::with_effect(
                AppV { status: "Generating URL..."@, ..s },
                EffectV::VlessUrl(u.uuid, u.name, VlessUrlIntent::Clipboard),
            ),
        },
        None => app::quiet(s),
    }
}

/// The user that is shown is deleted, unless another change is under way.
pub open spec fn delete_step(s: AppV) -> StepV {
    if s.pending_delete_uuid is Some || s.pending_add_name is Some {
        app::quiet(s)
    } else {
        match s.detail.user {
            Some(u) => app::with_effect(
                AppV {
                    pending_delete_uuid: Some(u.uuid),
                    status: "Deleting user '"@ + u.name + "'..."@,
                    ..s
                },
                EffectV::DeleteUser(u.uuid),
            ),
            None => app::quiet(s),
        }
    }
}

/// The QR code of a user is shown, or its URL is fetched for it.
pub open spec fn qr_step(
    s: AppV,
    uuid: Seq<char>,
    name: Seq<char>,
    url: Option<Seq<char>>,
) -> StepV {
    match url {
        Some(u) => app::quiet(AppV { qr: Some((name, u)), screen: Screen::QrView, ..s }),
        None => app::with_effect(
            AppV { status: "Generating QR code..."@, ..s },
            EffectV::VlessUrl(uuid, name, VlessUrlIntent::Qr),
        ),
    }
}

/// A key on the detail view. Where the view took it, a copy that was asked for and a deletion that
/// was confirmed are carried out.
pub open spec fn detail_key(s: AppV, code: KeyCode, consumed: bool) -> StepV {
    if consumed {
        let a = if s.detail.clipboard_copied {
            copy_step(AppV { detail: UserDetailV { clipboard_copied: false, ..s.detail }, ..s })
        } else {
            app::quiet(s)
        };
        let b = if a.app.detail.delete_confirmed {
            delete_step(
                AppV {
                    detail: UserDetailV { delete_confirmed: false, ..a.app.detail },
                    ..a.app
                },
            )
        } else {
            app::quiet(a.app)
        };
        StepV { app: b.app, effects: a.effects + b.effects }
    } else {
        match s.detail.mode {
            DetailModeV::View => match code {
                KeyCode::Esc => app::quiet(
                    AppV {
                        detail: states::opened_detail(None),
                        screen: Screen::Dashboard,
                        ..s
                    },
                ),
                KeyCode::Char('q') => match s.detail.user {
                    Some(u) => qr_step(s, u.uuid, u.name, s.detail.cached_vless_url),
                    None => app::quiet(s),
                },
                _ => app::quiet(s),
            },
            DetailModeV::DeleteConfirm => app::quiet(s),
            _ => app::quiet(
                AppV { detail: states::opened_detail(None), screen: Screen::Dashboard, ..s },
            ),
        }
    }
}

/// A key on the dialog that adds a user. Where the dialog took it and was confirmed, the user is
/// added, unless another change is under way.
pub open spec fn add_user_key(s: AppV, code: KeyCode, consumed: bool) -> StepV {
    if consumed {
        if s.add_user.confirmed && s.pending_add_name is None && s.pending_delete_uuid is None {
            let name = text::trimmed(s.add_user.name);
            app::with_effect(
                AppV {
                    add_user: AddUserV { confirmed: false, ..s.add_user },
                    pending_add_name: Some(name),
                    status: "Adding user '"@ + name + "'..."@,
                    ..s
                },
                EffectV::AddUser(name),
            )
        } else {
            app::quiet(s)
        }
    } else {
        match code {
            KeyCode::Esc => app::quiet(
                AppV { add_user: states::default_add_user(), screen: Screen::Dashboard, ..s },
            ),
            KeyCode::Char('q') => match s.add_user.result {
                AddResultV::Success(name, uuid) => qr_step(
                    s,
                    uuid,
                    name,
                    s.add_user.cached_vless_url,
                ),
                _ => app::quiet(s),
            },
            _ => app::quiet(s),
        }
    }
}

/// A key on the QR code.
pub open spec fn qr_key(s: AppV, code: KeyCode) -> StepV {
    match code {
        KeyCode::Esc => app::quiet(AppV { qr: None, screen: Screen::Dashboard, ..s }),
        KeyCode::Char('q') => app::quiet(AppV { qr: None, screen: Screen::Dashboard, ..s }),
        _ => app::quiet(s),
    }
}

/// A token of a bot: digits, a colon and a secret.
pub open spec fn token_ok(s: Seq<char>) -> bool {
    exists|i: int|
        0 < i < s.len() - 1 && #[trigger] s[i] == ':' && forall|j: int|
            0 <= j < i ==> text::is_digit(#[trigger] s[j])
}

/// The form of the bot with another status.
pub open spec fn with_deploy(s: AppV, d: DeployV) -> AppV {
    AppV { telegram: TelegramSetupV { deploy_status: d, ..s.telegram }, ..s }
}

/// A key on the form of the bot, after the form took it. A deployment that was asked for is begun by
/// saving its configuration, unless one is under way.
pub open spec fn telegram_key(s: AppV, code: KeyCode) -> StepV {
    if code == KeyCode::Esc {
        app::quiet(AppV { screen: Screen::Dashboard, ..s })
    } else if s.telegram.deploy_requested && !s.pending_deploy {
        let t = AppV { telegram: TelegramSetupV { deploy_requested: false, ..s.telegram }, ..s };
        let token = text::trimmed(s.telegram.token);
        if !token_ok(token) {
            app::quiet(
                with_deploy(t, DeployV::Error("Invalid token format (expected digits:secret)"@)),
            )
        } else {
            match decimal::parse_signed(text::trimmed(s.telegram.admin_id)) {
                None => app::quiet(
                    with_deploy(t, DeployV::Error("Invalid Admin ID (must be a number)"@)),
                ),
                Some(id) => app::with_effect(
                    AppV {
                        config: ConfigV {
                            telegram_token: Some(token),
                            telegram_admin_chat_id: Some(id as i64),
                            ..t.config
                        },
                        ..t
                    },
                    EffectV::SaveTelegram(token),
                ),
            }
        }
    } else {
        app::quiet(s)
    }
}

/// After the configuration of the bot was saved, or could not be.
pub open spec fn telegram_saved_step(
    s: AppV,
    token: Seq<char>,
    result: Result<(), Seq<char>>,
) -> StepV {
    match result {
        Ok(_) => app::with_effect(
            with_deploy(AppV { pending_deploy: true, ..s }, DeployV::Connecting),
            EffectV::DeployBot(token),
        ),
        Err(e) => app::quiet(with_deploy(s, DeployV::Error("Config save failed: "@ + e))),
    }
}

/// A key. Two keys quit from everywhere; the others are for the screen.
pub open spec fn key_step(
    s: AppV,
    key: KeyEvent,
    consumed: bool,
    selected: Option<UserV>,
) -> StepV {
    if key.control && (key.code == KeyCode::Char('c') || key.code == KeyCode::Char('q')) {
        app::quiet(AppV { running: false, ..s })
    } else {
        match s.screen {
            Screen::Dashboard => dashboard_key(s, key.code, selected),
            Screen::Setup => setup_key(s, key),
            Screen::UserDetail => detail_key(s, key.code, consumed),
            Screen::AddUser => add_user_key(s, key.code, consumed),
            Screen::QrView => qr_key(s, key.code),
            Screen::TelegramSetup => telegram_key(s, key.code),
        }
    }
}

/// Whether a text is a token of a bot.
pub fn is_valid_token(s: &str) -> (r: bool)
    ensures
        r == token_ok(s@),
{
    let v = chars_of(s);
    let mut i: usize = 0;
    while i < v.len() && char_is_digit(v[i])
        invariant
            i <= v@.len(),
            forall|j: int| 0 <= j < i ==> text::is_digit(#[trigger] v@[j]),
        decreases v.len() - i,
    {
        i += 1;
    }
    let r: bool = 0 < i && i < v.len() && v.len() - i > 1 && v[i] == ':';
    proof {
        if r {
            assert(s@[i as int] == ':');
        } else if token_ok(s@) {
            let k = choose|k: int|
                0 < k < s@.len() - 1 && #[trigger] s@[k] == ':' && forall|j: int|
                    0 <= j < k ==> text::is_digit(#[trigger] s@[j]);
            if k < i {
                assert(text::is_digit(v@[k]));
            } else if k > i {
                assert(text::is_digit(s@[i as int]));
            }
        }
    }
    r
}

impl App {
    fn open_detail(&mut self, user: &XrayUser, mode: DetailMode) -> (r: Vec<Effect>)
        requires
            old(self).wf(),
        ensures
            app::does(final(self)@, r@, opened(old(self)@, user@, mode@)),
            final(self).wf(),
    {
        self.user_detail_state.open(user.duplicate());
        self.user_detail_state.mode = mode;
        self.screen = Screen::UserDetail;
        one_effect(
            Effect::FetchOnlineIps { uuid: user.uuid.clone(), email: user.email.clone() },
        )
    }

    fn handle_dashboard_key(&mut self, key: KeyEvent, selected: Option<&XrayUser>) -> (r: Vec<Effect>)
        requires
            old(self).wf(),
        ensures
            app::does(
                final(self)@,
                r@,
                dashboard_key(
                    old(self)@,
                    key.code,
                    match selected {
                        Some(u) => Some(u@),
                        None => None,
                    },
                ),
            ),
            final(self).wf(),
    {
        match key.code {
            KeyCode::Char('q') => {
                self.running = false;
                no_effects()
            },
            KeyCode::Char('r') => self.trigger_refresh(),
            KeyCode::Char('j') => one_effect(Effect::SelectNext),
            KeyCode::Down => one_effect(Effect::SelectNext),
            KeyCode::Char('k') => one_effect(Effect::SelectPrevious),
            KeyCode::Up => one_effect(Effect::SelectPrevious),
            KeyCode::Enter => match selected {
                Some(user) => self.open_detail(user, DetailMode::View),
                None => no_effects(),
            },
            KeyCode::Char('a') => {
                self.add_user_state = AddUserState::default();
                self.screen = Screen::AddUser;
                no_effects()
            },
            KeyCode::Char('d') => match selected {
                Some(user) => self.open_detail(user, DetailMode::DeleteConfirm),
                None => no_effects(),
            },
            KeyCode::Char('t') => {
                self.telegram_setup_state =
                TelegramSetupState::from_config(
                    &self.config.telegram_token,
                    self.config.telegram_admin_chat_id,
                );
                self.screen = Screen::TelegramSetup;
                no_effects()
            },
            _ => no_effects(),
        }
    }

    fn begin_test(&mut self) -> (r: Vec<Effect>)
        requires
            old(self).wf(),
        ensures
            app::does(final(self)@, r@, setup_test(old(self)@)),
            final(self).wf(),
    {
        if !self.setup_state.test_requested {
            return no_effects();
        }
        let config = self.setup_state.to_config();
        self.setup_state.test_requested = false;
        if self.pending_test {
            return no_effects();
        }
        if !config.has_connection_info() {
            self.setup_state.test_result =
            TestResult::Error("Please enter a host or SSH config alias".to_owned());
            return no_effects();
        }
        self.pending_test = true;
        self.tested_config = Some(self.setup_state.to_config());
        self.setup_state.test_result = TestResult::Testing;
        one_effect(Effect::TestConnection(config))
    }

    fn handle_setup_key(&mut self, key: KeyEvent) -> (r: Vec<Effect>)
        requires
            old(self).wf(),
        ensures
            app::does(final(self)@, r@, setup_key(old(self)@, key)),
            final(self).wf(),
    {
        if key.code == KeyCode::Esc {
            self.running = false;
            return no_effects();
        }
        self.setup_state.handle_key(key);
        if !self.setup_state.save_requested {
            return self.begin_test();
        }
        self.setup_state.save_requested = false;
        let mut config = self.setup_state.to_config();
        config.telegram_token = self.config.telegram_token.clone();
        config.telegram_admin_chat_id = self.config.telegram_admin_chat_id;
        if !config.has_connection_info() {
            self.setup_state.test_result =
            TestResult::Error("Please enter a host or SSH config alias".to_owned());
            return no_effects();
        }
        one_effect(Effect::SaveSetup(config))
    }

    /// Goes on after the configuration of the setup form was saved, or could not be.
    pub fn setup_saved(&mut self, config: Config, result: Result<(), String>) -> (r: Vec<Effect>)
        requires
            old(self).wf(),
        ensures
            app::does(
                final(self)@,
                r@,
                setup_saved_step(old(self)@, config@, app::unit_result(result)),
            ),
            final(self).wf(),
    {
        match result {
            Ok(()) => {
                if let Some(host) = &config.host {
                    self.dashboard_state.server_host = host.clone();
                } else if let Some(ssh_host) = &config.ssh_host {
                    self.dashboard_state.server_host = ssh_host.clone();
                }
                self.config = config;
                self.dashboard_state.loading = true;
                self.screen = Screen::Dashboard;
                self.status_message = "Config saved. Connecting...".to_owned();
                let first = self.trigger_refresh();
                let second = self.begin_test();
                both_effects(first, second)
            },
            Err(e) => {
                self.setup_state.test_result = TestResult::Error(cat2("Save failed: ", &e));
                self.begin_test()
            },
        }
    }

    fn copy_url(&mut self) -> (r: Vec<Effect>)
        requires
            old(self).wf(),
        ensures
            app::does(final(self)@, r@, copy_step(old(self)@)),
            final(self).wf(),
    {
        match &self.user_detail_state.user {
            Some(user) => match &self.user_detail_state.cached_vless_url {
                Some(url) => {
                    let e = Effect::Copy(url.clone());
                    self.status_message = "Copied to clipboard (OSC 52)".to_owned();
                    one_effect(e)
                },
                None => {
                    let e = Effect::VlessUrl {
                        uuid: user.uuid.clone(),
                        name: user.name.clone(),
                        intent: VlessUrlIntent::Clipboard,
                    };
                    self.status_message = "Generating URL...".to_owned();
                    one_effect(e)
                },
            },
            None => no_effects(),
        }
    }

    fn delete_shown(&mut self) -> (r: Vec<Effect>)
        requires
            old(self).wf(),
        ensures
            app::does(final(self)@, r@, delete_step(old(self)@)),
            final(self).wf(),
    {
        if self.pending_delete_uuid.is_some() || self.pending_add_name.is_some() {
            return no_effects();
        }
        match &self.user_detail_state.user {
            Some(user) => {
                let uuid = user.uuid.clone();
                self.status_message = cat3("Deleting user '", &user.name, "'...");
                self.pending_delete_uuid = Some(uuid.clone());
                one_effect(Effect::DeleteUser(uuid))
            },
            None => no_effects(),
        }
    }

    fn show_qr(&mut self, uuid: String, name: String, url: Option<String>) -> (r: Vec<Effect>)
        requires
            old(self).wf(),
        ensures
            app::does(final(self)@, r@, qr_step(old(self)@, uuid@, name@, text::opt_text(url))),
            final(self).wf(),
    {
        match url {
            Some(u) => {
                self.qr_view_state = QrViewState { shown: Some((name, u)) };
                self.screen = Screen::QrView;
                no_effects()
            },
            None => {
                self.status_message = "Generating QR code...".to_owned();
                one_effect(Effect::VlessUrl { uuid, name, intent: VlessUrlIntent::Qr })
            },
        }
    }

    fn copy_if_asked(&mut self) -> (r: Vec<Effect>)
        requires
            old(self).wf(),
        ensures
            app::does(
                final(self)@,
                r@,
                if old(self)@.detail.clipboard_copied {
                    copy_step(
                        AppV {
                            detail: UserDetailV { clipboard_copied: false, ..old(self)@.detail },
                            ..old(self)@
                        },
                    )
                } else {
                    app::quiet(old(self)@)
                },
            ),
            final(self).wf(),
    {
        if self.user_detail_state.clipboard_copied {
            self.user_detail_state.clipboard_copied = false;
            self.copy_url()
        } else {
            no_effects()
        }
    }

    fn delete_if_asked(&mut self) -> (r: Vec<Effect>)
        requires
            old(self).wf(),
        ensures
            app::does(
                final(self)@,
                r@,
                if old(self)@.detail.delete_confirmed {
                    delete_step(
                        AppV {
                            detail: UserDetailV { delete_confirmed: false, ..old(self)@.detail },
                            ..old(self)@
                        },
                    )
                } else {
                    app::quiet(old(self)@)
                },
            ),
            final(self).wf(),
    {
        if self.user_detail_state.delete_confirmed {
            self.user_detail_state.delete_confirmed = false;
            self.delete_shown()
        } else {
            no_effects()
        }
    }

    fn handle_user_detail_key(&mut self, key: KeyEvent, consumed: bool) -> (r: Vec<Effect>)
        requires
            old(self).wf(),
        ensures
            app::does(final(self)@, r@, detail_key(old(self)@, key.code, consumed)),
            final(self).wf(),
    {
        if consumed {
            let first = self.copy_if_asked();
            let second = self.delete_if_asked();
            return both_effects(first, second);
        }
        match &self.user_detail_state.mode {
            DetailMode::View => match key.code {
                KeyCode::Esc => {
                    self.user_detail_state = UserDetailState::of(None);
                    self.screen = Screen::Dashboard;
                    no_effects()
                },
                KeyCode::Char('q') => match &self.user_detail_state.user {
                    Some(user) => {
                        let uuid = user.uuid.clone();
                        let name = user.name.clone();
                        let url = self.user_detail_state.cached_vless_url.clone();
                        self.show_qr(uuid, name, url)
                    },
                    None => no_effects(),
                },
                _ => no_effects(),
            },
            DetailMode::DeleteConfirm => no_effects(),
            _ => {
                self.user_detail_state = UserDetailState::of(None);
                self.screen = Screen::Dashboard;
                no_effects()
            },
        }
    }

    fn handle_add_user_key(&mut self, key: KeyEvent, consumed: bool) -> (r: Vec<Effect>)
        requires
            old(self).wf(),
        ensures
            app::does(final(self)@, r@, add_user_key(old(self)@, key.code, consumed)),
            final(self).wf(),
    {
        if consumed {
            if self.add_user_state.confirmed && self.pending_add_name.is_none()
                && self.pending_delete_uuid.is_none() {
                let name = trim(&self.add_user_state.name);
                self.add_user_state.confirmed = false;
                self.pending_add_name = Some(name.clone());
                self.status_message = cat3("Adding user '", &name, "'...");
                return one_effect(Effect::AddUser(name));
            }
            return no_effects();
        }
        match key.code {
            KeyCode::Esc => {
                self.add_user_state = AddUserState::default();
                self.screen = Screen::Dashboard;
                no_effects()
            },
            KeyCode::Char('q') => match &self.add_user_state.result {
                AddUserResult::Success { name, uuid } => {
                    let name = name.clone();
                    let uuid = uuid.clone();
                    let url = self.add_user_state.cached_vless_url.clone();
                    self.show_qr(uuid, name, url)
                },
                _ => no_effects(),
            },
            _ => no_effects(),
        }
    }

    fn handle_qr_view_key(&mut self, key: KeyEvent) -> (r: Vec<Effect>)
        requires
            old(self).wf(),
        ensures
            app::does(final(self)@, r@, qr_key(old(self)@, key.code)),
            final(self).wf(),
    {
        match key.code {
            KeyCode::Esc | KeyCode::Char('q') => {
                self.qr_view_state = QrViewState { shown: None };
                self.screen = Screen::Dashboard;
            },
            _ => {},
        }
        no_effects()
    }

    fn handle_telegram_setup_key(&mut self, key: KeyEvent) -> (r: Vec<Effect>)
        requires
            old(self).wf(),
        ensures
            app::does(final(self)@, r@, telegram_key(old(self)@, key.code)),
            final(self).wf(),
    {
        if key.code == KeyCode::Esc {
            self.screen = Screen::Dashboard;
            return no_effects();
        }
        if !self.telegram_setup_state.deploy_requested || self.pending_deploy {
            return no_effects();
        }
        self.telegram_setup_state.deploy_requested = false;
        let token = trim(&self.telegram_setup_state.token);
        if !is_valid_token(&token) {
            self.telegram_setup_state.deploy_status =
            DeployStatus::Error("Invalid token format (expected digits:secret)".to_owned());
            return no_effects();
        }
        match parse_i64(&trim(&self.telegram_setup_state.admin_id)) {
            None => {
                self.telegram_setup_state.deploy_status =
                DeployStatus::Error("Invalid Admin ID (must be a number)".to_owned());
                no_effects()
            },
            Some(id) => {
                self.config.telegram_token = Some(token.clone());
                self.config.telegram_admin_chat_id = Some(id);
                one_effect(Effect::SaveTelegram(token))
            },
        }
    }

    /// Goes on after the configuration of the bot was saved, or could not be.
    pub fn telegram_saved(&mut self, token: String, result: Result<(), String>) -> (r: Vec<Effect>)
        requires
            old(self).wf(),
        ensures
            app::does(
                final(self)@,
                r@,
                telegram_saved_step(old(self)@, token@, app::unit_result(result)),
            ),
            final(self).wf(),
    {
        match result {
            Ok(()) => {
                self.pending_deploy = true;
                self.telegram_setup_state.deploy_status = DeployStatus::Connecting;
                one_effect(Effect::DeployBot(token))
            },
            Err(e) => {
                self.telegram_setup_state.deploy_status =
                DeployStatus::Error(cat2("Config save failed: ", &e));
                no_effects()
            },
        }
    }

    /// Takes a key. `consumed` tells whether the widget of the screen took it, and `selected` which
    /// user is selected on the dashboard.
    pub fn handle_key(&mut self, key: KeyEvent, consumed: bool, selected: Option<&XrayUser>) -> (r:
        Vec<Effect>)
        requires
            old(self).wf(),
        ensures
            app::does(
                final(self)@,
                r@,
                key_step(
                    old(self)@,
                    key,
                    consumed,
                    match selected {
                        Some(u) => Some(u@),
                        None => None,
                    },
                ),
            ),
            final(self).wf(),
    {
        if key.control && (key.code == KeyCode::Char('c') || key.code == KeyCode::Char('q')) {
            self.running = false;
            return no_effects();
        }
        match self.screen {
            Screen::Dashboard => self.handle_dashboard_key(key, selected),
            Screen::Setup => self.handle_setup_key(key),
            Screen::UserDetail => self.handle_user_detail_key(key, consumed),
            Screen::AddUser => self.handle_add_user_key(key, consumed),
            Screen::QrView => self.handle_qr_view_key(key),
            Screen::TelegramSetup => self.handle_telegram_setup_key(key),
        }
    }
}

} // verus!
