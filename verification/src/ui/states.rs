//! What the screens hold beside the setup form.

use crate::decimal;
use crate::decimal::i64_text;
use crate::text;
use crate::xray::types::{UserV, XrayUser};
use vstd::prelude::*;

verus! {

// ---- dashboard ----

/// What the dashboard shows beside the users.
#[derive(Debug, Clone)]
pub struct DashboardState {
    pub server_host: String,
    pub server_version: String,
    pub container_uptime: String,
    pub latest_version: Option<String>,
    pub total_upload: u64,
    pub total_download: u64,
    pub loading: bool,
}

pub struct DashboardV {
    pub server_host: Seq<char>,
    pub server_version: Seq<char>,
    pub container_uptime: Seq<char>,
    pub latest_version: Option<Seq<char>>,
    pub total_upload: u64,
    pub total_download: u64,
    pub loading: bool,
}

impl View for DashboardState {
    type V = DashboardV;

    open spec fn view(&self) -> DashboardV {
        DashboardV {
            server_host: self.server_host@,
            server_version: self.server_version@,
            container_uptime: self.container_uptime@,
            latest_version: text::opt_text(self.latest_version),
            total_upload: self.total_upload,
            total_download: self.total_download,
            loading: self.loading,
        }
    }
}

pub open spec fn default_dashboard() -> DashboardV {
    DashboardV {
        server_host: Seq::empty(),
        server_version: Seq::empty(),
        container_uptime: Seq::empty(),
        latest_version: None,
        total_upload: 0,
        total_download: 0,
        loading: false,
    }
}

impl Default for DashboardState {
    fn default() -> (r: DashboardState)
        ensures
            r@ == default_dashboard(),
    {
        DashboardState {
            server_host: String::new(),
            server_version: String::new(),
            container_uptime: String::new(),
            latest_version: None,
            total_upload: 0,
            total_download: 0,
            loading: false,
        }
    }
}

// ---- adding a user ----

/// What came of adding a user.
#[derive(Debug, Clone)]
pub enum AddUserResult {
    Pending,
    Success { name: String, uuid: String },
    Error(String),
}

pub enum AddResultV {
    Pending,
    Success(Seq<char>, Seq<char>),
    Error(Seq<char>),
}

impl View for AddUserResult {
    type V = AddResultV;

    open spec fn view(&self) -> AddResultV {
        match self {
            AddUserResult::Pending => AddResultV::Pending,
            AddUserResult::Success { name, uuid } => AddResultV::Success(name@, uuid@),
            AddUserResult::Error(m) => AddResultV::Error(m@),
        }
    }
}

/// The dialog that adds a user.
#[derive(Debug, Clone)]
pub struct AddUserState {
    pub name: String,
    pub confirmed: bool,
    pub result: AddUserResult,
    pub cached_vless_url: Option<String>,
}

pub struct AddUserV {
    pub name: Seq<char>,
    pub confirmed: bool,
    pub result: AddResultV,
    pub cached_vless_url: Option<Seq<char>>,
}

impl View for AddUserState {
    type V = AddUserV;

    open spec fn view(&self) -> AddUserV {
        AddUserV {
            name: self.name@,
            confirmed: self.confirmed,
            result: self.result@,
            cached_vless_url: text::opt_text(self.cached_vless_url),
        }
    }
}

pub open spec fn default_add_user() -> AddUserV {
    AddUserV {
        name: Seq::empty(),
        confirmed: false,
        result: AddResultV::Pending,
        cached_vless_url: None,
    }
}

impl Default for AddUserState {
    fn default() -> (r: AddUserState)
        ensures
            r@ == default_add_user(),
    {
        AddUserState {
            name: String::new(),
            confirmed: false,
            result: AddUserResult::Pending,
            cached_vless_url: None,
        }
    }
}

// ---- one user ----

/// What is shown of a user.
#[derive(Debug, Clone, PartialEq, Eq)]
pub enum DetailMode {
    View,
    DeleteConfirm,
    DeleteSuccess,
    DeleteError(String),
}

pub enum DetailModeV {
    View,
    DeleteConfirm,
    DeleteSuccess,
    DeleteError(Seq<char>),
}

impl View for DetailMode {
    type V = DetailModeV;

    open spec fn view(&self) -> DetailModeV {
        match self {
            DetailMode::View => DetailModeV::View,
            DetailMode::DeleteConfirm => DetailModeV::DeleteConfirm,
            DetailMode::DeleteSuccess => DetailModeV::DeleteSuccess,
            DetailMode::DeleteError(m) => DetailModeV::DeleteError(m@),
        }
    }
}

/// The view of one user. Its two flags tell that a copy was asked for or a deletion confirmed.
#[derive(Debug, Clone)]
pub struct UserDetailState {
    pub user: Option<XrayUser>,
    pub mode: DetailMode,
    pub cached_vless_url: Option<String>,
    pub online_ips: Vec<String>,
    pub online_ips_error: Option<String>,
    pub clipboard_copied: bool,
    pub delete_confirmed: bool,
}

pub struct UserDetailV {
    pub user: Option<UserV>,
    pub mode: DetailModeV,
    pub cached_vless_url: Option<Seq<char>>,
    pub online_ips: Seq<Seq<char>>,
    pub online_ips_error: Option<Seq<char>>,
    pub clipboard_copied: bool,
    pub delete_confirmed: bool,
}

/// The meaning of a user that may be missing.
pub open spec fn opt_user(u: Option<XrayUser>) -> Option<UserV> {
    match u {
        Some(x) => Some(x@),
        None => None,
    }
}

impl View for UserDetailState {
    type V = UserDetailV;

    open spec fn view(&self) -> UserDetailV {
        UserDetailV {
            user: opt_user(self.user),
            mode: self.mode@,
            cached_vless_url: text::opt_text(self.cached_vless_url),
            online_ips: text::texts(self.online_ips@),
            online_ips_error: text::opt_text(self.online_ips_error),
            clipboard_copied: self.clipboard_copied,
            delete_confirmed: self.delete_confirmed,
        }
    }
}

/// The view of a user that was just opened; of nobody where it was closed.
pub open spec fn opened_detail(u: Option<UserV>) -> UserDetailV {
    UserDetailV {
        user: u,
        mode: DetailModeV::View,
        cached_vless_url: None,
        online_ips: Seq::empty(),
        online_ips_error: None,
        clipboard_copied: false,
        delete_confirmed: false,
    }
}

impl UserDetailState {
    /// The view of a user, or of nobody.
    pub fn of(user: Option<XrayUser>) -> (r: UserDetailState)
        ensures
            r@ == opened_detail(opt_user(user)),
    {
        let r = UserDetailState {
            user,
            mode: DetailMode::View,
            cached_vless_url: None,
            online_ips: Vec::new(),
            online_ips_error: None,
            clipboard_copied: false,
            delete_confirmed: false,
        };
        assert(text::texts(r.online_ips@) =~= Seq::empty());
        r
    }

    /// Opens the view of a user.
    pub fn open(&mut self, user: XrayUser)
        ensures
            final(self)@ == opened_detail(Some(user@)),
    {
        *self = UserDetailState::of(Some(user));
    }
}

// ---- QR code ----

/// The QR code that is shown: a name and a URL.
#[derive(Debug, Clone)]
pub struct QrViewState {
    pub shown: Option<(String, String)>,
}

pub open spec fn qr_view(s: QrViewState) -> Option<(Seq<char>, Seq<char>)> {
    match s.shown {
        Some(x) => Some((x.0@, x.1@)),
        None => None,
    }
}

// ---- Telegram bot ----

/// How far the deployment of the bot is.
#[derive(Debug, Clone)]
pub enum DeployStatus {
    Idle,
    Connecting,
    BuildingImage,
    StartingBot,
    Verifying,
    Success(String),
    Error(String),
}

pub enum DeployV {
    Idle,
    Connecting,
    BuildingImage,
    StartingBot,
    Verifying,
    Success(Seq<char>),
    Error(Seq<char>),
}

impl View for DeployStatus {
    type V = DeployV;

    open spec fn view(&self) -> DeployV {
        match self {
            DeployStatus::Idle => DeployV::Idle,
            DeployStatus::Connecting => DeployV::Connecting,
            DeployStatus::BuildingImage => DeployV::BuildingImage,
            DeployStatus::StartingBot => DeployV::StartingBot,
            DeployStatus::Verifying => DeployV::Verifying,
            DeployStatus::Success(m) => DeployV::Success(m@),
            DeployStatus::Error(m) => DeployV::Error(m@),
        }
    }
}

/// The form that deploys the bot.
#[derive(Debug, Clone)]
pub struct TelegramSetupState {
    pub token: String,
    pub admin_id: String,
    pub deploy_requested: bool,
    pub deploy_status: DeployStatus,
}

pub struct TelegramSetupV {
    pub token: Seq<char>,
    pub admin_id: Seq<char>,
    pub deploy_requested: bool,
    pub deploy_status: DeployV,
}

impl View for TelegramSetupState {
    type V = TelegramSetupV;

    open spec fn view(&self) -> TelegramSetupV {
        TelegramSetupV {
            token: self.token@,
            admin_id: self.admin_id@,
            deploy_requested: self.deploy_requested,
            deploy_status: self.deploy_status@,
        }
    }
}

/// The form filled in from a configuration.
pub open spec fn telegram_from(token: Option<Seq<char>>, admin_id: Option<i64>) -> TelegramSetupV {
    TelegramSetupV {
        token: match token {
            Some(t) => t,
            None => Seq::empty(),
        },
        admin_id: match admin_id {
            Some(n) => decimal::dec_int(n as int),
            None => Seq::empty(),
        },
        deploy_requested: false,
        deploy_status: DeployV::Idle,
    }
}

impl TelegramSetupState {
    /// The form filled in from a configuration.
    pub fn from_config(token: &Option<String>, admin_id: Option<i64>) -> (r: TelegramSetupState)
        ensures
            r@ == telegram_from(text::opt_text(*token), admin_id),
    {
        TelegramSetupState {
            token: match token {
                Some(t) => t.clone(),
                None => String::new(),
            },
            admin_id: match admin_id {
                Some(n) => i64_text(n),
                None => String::new(),
            },
            deploy_requested: false,
            deploy_status: DeployStatus::Idle,
        }
    }
}

/// **A user that is opened is shown afresh**: nothing of the one before it is left.
pub proof fn law_opened_user_is_shown_afresh(
    d: &mut UserDetailState,
    u: XrayUser,
    x: UserDetailState,
    none: UserDetailState,
)
    requires
        call_ensures(UserDetailState::open, (d, u), ()),
        call_ensures(UserDetailState::of, (Some(u),), x),
        call_ensures(UserDetailState::of, (Option::<XrayUser>::None,), none),
    ensures
        final(d)@ == x@,
        final(d)@.user matches Some(v) && v.uuid == u.uuid@ && v.name == u.name@ && v.email
            == u.email@,
        final(d)@.mode == DetailModeV::View,
        final(d)@.cached_vless_url is None,
        final(d)@.online_ips.len() == 0,
        final(d)@.online_ips_error is None,
        !final(d)@.clipboard_copied && !final(d)@.delete_confirmed,
        none@.user is None,
{
}

} // verus!
