//! Laws on what keys and results do to what is shown.

use crate::app;
use crate::app::keys;
use crate::app::keys::is_valid_token;
use crate::app::messages;
use crate::app::messages::same_config;
use crate::app::{chrono_free_timestamp, truncate_msg, App, AppV, Effect, EffectV, Screen};
use crate::backend::{AddedUser, BackendMsg, DashboardData, VlessUrlIntent};
use crate::config::{Config, ConfigV};
use crate::decimal::parse_i64;
use crate::text;
use crate::ui::keys::{KeyCode, KeyEvent};
use crate::ui::setup;
use crate::ui::setup::{SetupState, TestV};
use crate::ui::states::{AddResultV, DeployV, DetailModeV};
use crate::xray::types::UserV;
use vstd::prelude::*;

verus! {

// ---- texts ----

/// **A message is shown whole where it fits**, and else as it begins, as far as fits, with dots.
pub proof fn law_message_is_cut_at_its_limit(msg: &str, max: usize, r: String)
    requires
        call_ensures(truncate_msg, (msg, max), r),
    ensures
        text::bytes(msg@) <= max ==> r@ == msg@,
        text::bytes(msg@) > max ==> r@.len() >= 3 && r@.skip(r@.len() - 3) == "..."@ && r@.take(
            r@.len() - 3,
        ).is_prefix_of(msg@) && text::bytes(r@.take(r@.len() - 3)) <= max && (r@.len() - 3
            < msg@.len() ==> text::bytes(msg@.take(r@.len() - 2)) > max),
{
    let f = text::fitted(msg@, max as nat);
    text::law_fitted_fits(msg@, max as nat);
    reveal_strlit("...");
    if text::bytes(msg@) > max {
        assert(r@.take(r@.len() - 3) =~= f);
        assert(r@.skip(r@.len() - 3) =~= "..."@);
    }
}

/// The number that two digits stand for.
pub open spec fn number_at(s: Seq<char>, i: int) -> int {
    10 * (s[i] as int - '0' as int) + (s[i + 1] as int - '0' as int)
}

/// **The time of day is that of the seconds**: hours, minutes and seconds, two digits each.
pub proof fn law_time_of_day_is_shown(secs: u64, r: String)
    requires
        call_ensures(chrono_free_timestamp, (secs,), r),
    ensures
        r@.len() == 12,
        number_at(r@, 0) == secs / 3600 % 24,
        r@[2] == ':',
        number_at(r@, 3) == secs / 60 % 60,
        r@[5] == ':',
        number_at(r@, 6) == secs % 60,
        r@.skip(8) == " UTC"@,
{
    reveal_strlit(":");
    reveal_strlit(" UTC");
    assert(r@.skip(8) =~= " UTC"@);
    assert(secs % 86400 / 3600 == secs / 3600 % 24) by (nonlinear_arith);
    assert(secs % 3600 / 60 == secs / 60 % 60) by (nonlinear_arith);
}

/// **A token is digits, a colon and something behind it**: such a text is one, and a text without a
/// colon, one that does not begin with a digit, and one that ends with its first colon are none.
pub proof fn law_token_is_digits_and_a_secret(s: &str, digits: Seq<char>, secret: Seq<char>, r: bool)
    requires
        call_ensures(is_valid_token, (s,), r),
        forall|i: int| 0 <= i < digits.len() ==> '0' <= #[trigger] digits[i] <= '9',
    ensures
        s@ == digits + seq![':'] + secret && digits.len() > 0 && secret.len() > 0 ==> r,
        s@ == digits + seq![':'] + secret && (digits.len() == 0 || secret.len() == 0) ==> !r,
        r ==> s@.contains(':') && '0' <= s@[0] <= '9',
        s@ == digits ==> !r,
{
    if s@ == digits + seq![':'] + secret {
        let k = digits.len() as int;
        assert(s@[k] == ':');
        assert forall|j: int| 0 <= j < k implies text::is_digit(#[trigger] s@[j]) by {
            assert(s@[j] == digits[j]);
        }
    }
}

// ---- the dashboard ----

/// **A user is opened with its own id and email.** The view shows the user that is selected, and its
/// addresses are asked for; with `d`, the question whether to delete it is put.
pub proof fn law_selected_user_is_opened(s: AppV, u: UserV, consumed: bool, shift: bool)
    requires
        s.screen == Screen::Dashboard,
    ensures
        ({
            let key = KeyEvent { code: KeyCode::Enter, shift, control: false };
            let t = keys::key_step(s, key, consumed, Some(u));
            t.app.screen == Screen::UserDetail && t.app.detail.user == Some(u) && t.app.detail.mode
                is View && t.app.detail.cached_vless_url is None && t.app.detail.online_ips.len()
                == 0 && !t.app.detail.delete_confirmed && t.effects == seq![
                EffectV::FetchOnlineIps(u.uuid, u.email),
            ]
        }),
        ({
            let key = KeyEvent { code: KeyCode::Char('d'), shift, control: false };
            let t = keys::key_step(s, key, consumed, Some(u));
            t.app.screen == Screen::UserDetail && t.app.detail.user == Some(u) && t.app.detail.mode
                is DeleteConfirm && !t.app.detail.delete_confirmed && t.effects == seq![
                EffectV::FetchOnlineIps(u.uuid, u.email),
            ]
        }),
{
}

/// **Each key of the dashboard does its own.**
pub proof fn law_keys_of_the_dashboard(
    s: AppV,
    consumed: bool,
    shift: bool,
    selected: Option<UserV>,
    code: KeyCode,
)
    requires
        s.screen == Screen::Dashboard,
    ensures
        ({
            let t = keys::key_step(
                s,
                KeyEvent { code, shift, control: false },
                consumed,
                selected,
            );
            &&& code == KeyCode::Char('q') ==> !t.app.running && t.effects.len() == 0
            &&& code != KeyCode::Char('q') ==> t.app.running == s.running
            &&& code == KeyCode::Char('j') || code == KeyCode::Down ==> t.app == s && t.effects
                == seq![EffectV::SelectNext]
            &&& code == KeyCode::Char('k') || code == KeyCode::Up ==> t.app == s && t.effects
                == seq![EffectV::SelectPrevious]
            &&& code == KeyCode::Char('a') ==> t.app.screen == Screen::AddUser
                && t.app.add_user.name.len() == 0 && t.app.add_user.result is Pending
                && t.effects.len() == 0
            &&& code == KeyCode::Char('t') ==> t.app.screen == Screen::TelegramSetup
                && t.app.telegram.deploy_status is Idle && t.effects.len() == 0
            &&& code == KeyCode::Char('r') && !s.pending_refresh ==> t.app.pending_refresh
                && t.effects == seq![
                EffectV::FetchDashboard(s.api_check_done, !s.version_check_done),
            ]
            &&& code == KeyCode::Char('r') && s.pending_refresh ==> t.app == s && t.effects.len()
                == 0
        }),
{
}

/// **The dashboard shows what was fetched**, each figure in its place, and the users as they came. The
/// newest version is kept where it was not asked for.
pub proof fn law_fetched_figures_are_shown(s: AppV, d: DashboardData, now: nat)
    requires
        !s.refresh_after_mutation,
    ensures
        ({
            let t = messages::msg_step(s, BackendMsg::DashboardData(Ok(d)), now);
            &&& t.app.dashboard.server_version == d.server_info.version@
            &&& t.app.dashboard.container_uptime == d.container_uptime@
            &&& t.app.dashboard.total_upload == d.server_info.uplink
            &&& t.app.dashboard.total_download == d.server_info.downlink
            &&& t.app.dashboard.server_host == s.dashboard.server_host
            &&& !t.app.dashboard.loading
            &&& d.version_was_fetched ==> (match d.latest_version {
                Some(v) => t.app.dashboard.latest_version == Some(v@),
                None => t.app.dashboard.latest_version is None,
            })
            &&& !d.version_was_fetched ==> t.app.dashboard.latest_version
                == s.dashboard.latest_version
            &&& !t.app.pending_refresh && t.app.initial_load_done && t.app.api_check_done
            &&& t.app.screen == s.screen
            &&& t.effects.len() == 1 && (t.effects[0] matches EffectV::ShowUsers(u) && u.len()
                == d.users@.len() && forall|i: int|
                0 <= i < u.len() ==> #[trigger] u[i] == d.users@[i]@)
        }),
{
}

/// **A fetch that failed is told**, and what is shown stays.
pub proof fn law_failed_fetch_is_told(s: AppV, e: String, now: nat)
    requires
        !s.refresh_after_mutation,
        text::bytes(e@) <= 60,
    ensures
        ({
            let t = messages::msg_step(
                s,
                BackendMsg::DashboardData(Err::<DashboardData, String>(e)),
                now,
            );
            t.app.status == "Error: "@ + e@ && !t.app.dashboard.loading && !t.app.pending_refresh
                && t.app.dashboard.server_version == s.dashboard.server_version
                && t.app.dashboard.latest_version == s.dashboard.latest_version && t.effects.len()
                == 0
        }),
{
}

// ---- one user ----

/// **The user that is deleted is the one that is shown**, after that was confirmed.
pub proof fn law_deleted_user_is_the_one_shown(s: AppV, u: UserV, key: KeyEvent)
    requires
        s.screen == Screen::UserDetail,
        !key.control,
        s.detail.user == Some(u),
        s.detail.delete_confirmed && !s.detail.clipboard_copied,
        s.pending_delete_uuid is None && s.pending_add_name is None,
    ensures
        ({
            let t = keys::key_step(s, key, true, Option::<UserV>::None);
            t.effects == seq![EffectV::DeleteUser(u.uuid)] && t.app.pending_delete_uuid == Some(
                u.uuid,
            ) && t.app.status == "Deleting user '"@ + u.name + "'..."@
                && !t.app.detail.delete_confirmed
        }),
{
    let t = keys::key_step(s, key, true, Option::<UserV>::None);
    assert(t.effects =~= seq![EffectV::DeleteUser(u.uuid)]);
}

/// **The URL that is copied is that of the user that is shown**: the one at hand, else it is asked for
/// with the id of that user.
pub proof fn law_copied_url_is_of_the_user_shown(s: AppV, u: UserV, key: KeyEvent)
    requires
        s.screen == Screen::UserDetail,
        !key.control,
        s.detail.user == Some(u),
        s.detail.clipboard_copied && !s.detail.delete_confirmed,
    ensures
        ({
            let t = keys::key_step(s, key, true, Option::<UserV>::None);
            &&& s.detail.cached_vless_url matches Some(url) ==> t.effects == seq![
                EffectV::Copy(url),
            ]
            &&& s.detail.cached_vless_url is None ==> t.effects == seq![
                EffectV::VlessUrl(u.uuid, u.name, VlessUrlIntent::Clipboard),
            ]
        }),
{
    let t = keys::key_step(s, key, true, Option::<UserV>::None);
    if let Some(url) = s.detail.cached_vless_url {
        assert(t.effects =~= seq![EffectV::Copy(url)]);
    } else {
        assert(t.effects =~= seq![EffectV::VlessUrl(u.uuid, u.name, VlessUrlIntent::Clipboard)]);
    }
}

/// **The QR code is that of the user that is shown.**
pub proof fn law_qr_code_is_of_the_user_shown(s: AppV, u: UserV, shift: bool)
    requires
        s.screen == Screen::UserDetail,
        s.detail.user == Some(u),
        s.detail.mode is View,
    ensures
        ({
            let key = KeyEvent { code: KeyCode::Char('q'), shift, control: false };
            let t = keys::key_step(s, key, false, Option::<UserV>::None);
            &&& s.detail.cached_vless_url matches Some(url) ==> t.app.qr == Some((u.name, url))
                && t.app.screen == Screen::QrView && t.effects.len() == 0
            &&& s.detail.cached_vless_url is None ==> t.effects == seq![
                EffectV::VlessUrl(u.uuid, u.name, VlessUrlIntent::Qr),
            ] && t.app.screen == s.screen
        }),
{
}

/// **A URL that was made is used for what it was asked for**, where its user is still shown.
pub proof fn law_made_url_is_used(s: AppV, u: UserV, a: AddedUser, now: nat)
    requires
        s.screen == Screen::UserDetail,
        s.detail.user == Some(u),
        u.uuid == a.uuid@,
    ensures
        ({
            let t = messages::msg_step(
                s,
                BackendMsg::VlessUrl(Ok(a), VlessUrlIntent::Clipboard),
                now,
            );
            t.app.detail.cached_vless_url == Some(a.vless_url@) && t.effects == seq![
                EffectV::Copy(a.vless_url@),
            ] && t.app.screen == s.screen
        }),
        ({
            let t = messages::msg_step(s, BackendMsg::VlessUrl(Ok(a), VlessUrlIntent::Qr), now);
            t.app.detail.cached_vless_url == Some(a.vless_url@) && t.app.qr == Some(
                (a.name@, a.vless_url@),
            ) && t.app.screen == Screen::QrView && t.effects.len() == 0
        }),
{
}

/// **Addresses are shown with the user that they are of**, and with no other.
pub proof fn law_addresses_are_shown_with_their_user(
    s: AppV,
    u: UserV,
    id: String,
    ips: Vec<String>,
    e: String,
    now: nat,
)
    requires
        s.screen == Screen::UserDetail,
        s.detail.user == Some(u),
        text::bytes(e@) <= 40,
    ensures
        ({
            let t = messages::msg_step(
                s,
                BackendMsg::OnlineIps(
                    Ok::<(String, Vec<String>), (String, String)>((id, ips)),
                ),
                now,
            );
            &&& id@ == u.uuid ==> t.app.detail.online_ips.len() == ips@.len() && (forall|i: int|
                0 <= i < ips@.len() ==> #[trigger] t.app.detail.online_ips[i] == ips@[i]@)
                && t.app.detail.online_ips_error is None
            &&& id@ != u.uuid ==> t.app.detail == s.detail
            &&& t.effects.len() == 0
        }),
        ({
            let t = messages::msg_step(
                s,
                BackendMsg::OnlineIps(Err::<(String, Vec<String>), (String, String)>((id, e))),
                now,
            );
            &&& id@ == u.uuid ==> t.app.detail.online_ips_error == Some(e@)
                && t.app.detail.online_ips == s.detail.online_ips
            &&& id@ != u.uuid ==> t.app.detail == s.detail
        }),
{
}

/// **A deletion that succeeded or failed is told with the user that it was of.**
pub proof fn law_deletion_is_told(s: AppV, u: UserV, id: String, e: String, now: nat)
    requires
        s.screen == Screen::UserDetail,
        s.detail.user == Some(u),
        text::bytes(e@) <= 50,
    ensures
        ({
            let t = messages::msg_step(
                s,
                BackendMsg::UserDeleted(Ok::<String, String>(id)),
                now,
            );
            &&& id@ == u.uuid ==> t.app.detail.mode is DeleteSuccess
            &&& id@ != u.uuid ==> t.app.detail == s.detail
            &&& t.app.pending_delete_uuid is None
        }),
        ({
            let t = messages::msg_step(
                s,
                BackendMsg::UserDeleted(Err::<String, String>(e)),
                now,
            );
            &&& s.pending_delete_uuid == Some(u.uuid) ==> t.app.detail.mode
                == DetailModeV::DeleteError(e@)
            &&& s.pending_delete_uuid != Some(u.uuid) ==> t.app.detail == s.detail
            &&& t.app.status == "Delete failed: "@ + e@
            &&& t.app.pending_delete_uuid is None && t.effects.len() == 0
        }),
{
}

// ---- adding a user ----

/// **The user that is added has the name that was typed**, without the blanks around it.
pub proof fn law_added_user_has_the_name_typed(s: AppV, key: KeyEvent)
    requires
        s.screen == Screen::AddUser,
        !key.control,
        s.add_user.confirmed,
        s.pending_add_name is None && s.pending_delete_uuid is None,
    ensures
        ({
            let t = keys::key_step(s, key, true, Option::<UserV>::None);
            t.effects == seq![EffectV::AddUser(text::trimmed(s.add_user.name))]
                && t.app.pending_add_name == Some(text::trimmed(s.add_user.name))
                && !t.app.add_user.confirmed
        }),
{
}

/// **What came of adding a user is shown in the dialog that asked for it**: its name, its id and its
/// URL, or why it failed.
pub proof fn law_what_came_of_adding_is_shown(s: AppV, a: AddedUser, e: String, now: nat)
    requires
        s.screen == Screen::AddUser,
        text::bytes(e@) <= 50,
    ensures
        ({
            let t = messages::msg_step(s, BackendMsg::UserAdded(Ok(a)), now);
            &&& t.app.pending_add_name is None
            &&& s.pending_add_name == Some(a.name@) && text::trimmed(s.add_user.name) == a.name@
                ==> t.app.add_user.result == AddResultV::Success(a.name@, a.uuid@) && (
            a.vless_url@.len() > 0 ==> t.app.add_user.cached_vless_url == Some(a.vless_url@)) && (
            a.vless_url@.len() == 0 ==> t.app.add_user.cached_vless_url is None)
            &&& s.pending_add_name != Some(a.name@) ==> t.app.add_user == s.add_user
        }),
        ({
            let t = messages::msg_step(s, BackendMsg::UserAdded(Err::<AddedUser, String>(e)), now);
            &&& t.app.pending_add_name is None && t.effects.len() == 0
            &&& s.pending_add_name == Some(text::trimmed(s.add_user.name))
                ==> t.app.add_user.result == AddResultV::Error(e@)
            &&& t.app.status == "Error: "@ + e@
        }),
{
}

// ---- the setup ----

/// **What is saved is what the form says**, and what is saved is then used: the dashboard shows the
/// host, or the alias where there is none.
pub proof fn law_saved_setup_is_used(s: AppV, c: ConfigV, e: Seq<char>)
    requires
        !s.setup.test_requested,
    ensures
        ({
            let t = keys::setup_saved_step(s, c, Ok::<(), Seq<char>>(()));
            &&& t.app.config == c
            &&& t.app.screen == Screen::Dashboard
            &&& c.host matches Some(h) ==> t.app.dashboard.server_host == h
            &&& c.host is None ==> (c.ssh_host matches Some(h) ==> t.app.dashboard.server_host
                == h)
            &&& !s.pending_refresh ==> t.effects.len() == 1 && t.effects[0]
                == EffectV::FetchDashboard(s.api_check_done, !s.version_check_done)
            &&& s.pending_refresh ==> t.effects.len() == 0 && t.app.status
                == "Config saved. Connecting..."@
        }),
        ({
            let t = keys::setup_saved_step(s, c, Err::<(), Seq<char>>(e));
            t.app.config == s.config && t.app.screen == s.screen && t.app.setup.test_result
                == TestV::Error("Save failed: "@ + e) && t.effects.len() == 0
        }),
{
}

/// **A connection is tested as the form says it**, where the form says where to.
pub proof fn law_tested_connection_is_that_of_the_form(
    s: AppV,
    form: SetupState,
    c: Config,
    shift: bool,
    selected: Option<UserV>,
)
    requires
        s.screen == Screen::Setup,
        s.setup == form@,
        call_ensures(SetupState::to_config, (&form,), c),
        form@.focused == 6,
        !s.pending_test && !s.setup.save_requested,
    ensures
        ({
            let key = KeyEvent { code: KeyCode::Enter, shift, control: false };
            let t = keys::key_step(s, key, false, selected);
            &&& form.host@.len() > 0 || form.ssh_host@.len() > 0 ==> t.effects == seq![
                EffectV::TestConnection(c@),
            ] && t.app.pending_test && t.app.tested_config == Some(c@) && t.app.setup.test_result
                is Testing
            &&& form.host@.len() == 0 && form.ssh_host@.len() == 0 ==> t.effects.len() == 0
                && t.app.setup.test_result == TestV::Error(
                "Please enter a host or SSH config alias"@,
            )
        }),
{
}

/// **What is saved is what the form says**, with the bot that was configured before.
pub proof fn law_saved_configuration_is_that_of_the_form(
    s: AppV,
    form: SetupState,
    c: Config,
    shift: bool,
    selected: Option<UserV>,
)
    requires
        s.screen == Screen::Setup,
        s.setup == form@,
        call_ensures(SetupState::to_config, (&form,), c),
        form@.focused == 7,
    ensures
        ({
            let key = KeyEvent { code: KeyCode::Enter, shift, control: false };
            let t = keys::key_step(s, key, false, selected);
            &&& form.host@.len() > 0 || form.ssh_host@.len() > 0 ==> t.effects.len() == 1 && (
            t.effects[0] matches EffectV::SaveSetup(d) && d.host == c@.host && d.port == c@.port
                && d.user == c@.user && d.key_path == c@.key_path && d.ssh_host == c@.ssh_host
                && d.container == c@.container && d.telegram_token == s.config.telegram_token
                && d.telegram_admin_chat_id == s.config.telegram_admin_chat_id)
            &&& form.host@.len() == 0 && form.ssh_host@.len() == 0 ==> t.effects.len() == 0
                && t.app.setup.test_result == TestV::Error(
                "Please enter a host or SSH config alias"@,
            )
            &&& !t.app.setup.save_requested
        }),
{
}

/// **What a test found is shown on the form**, unless the form was edited since.
pub proof fn law_test_is_shown(s: AppV, v: String, e: String, now: nat)
    requires
        s.screen == Screen::Setup,
        s.tested_config == Some(setup::config_of(s.setup)),
        text::bytes(e@) <= 60,
    ensures
        ({
            let t = messages::msg_step(s, BackendMsg::ConnectionTest(Ok::<String, String>(v)), now);
            t.app.setup.test_result == TestV::Success("Connected! "@ + v@) && !t.app.pending_test
                && t.app.tested_config is None
        }),
        ({
            let t = messages::msg_step(
                s,
                BackendMsg::ConnectionTest(Err::<String, String>(e)),
                now,
            );
            t.app.setup.test_result == TestV::Error(e@) && !t.app.pending_test
        }),
{
}

// ---- the bot ----

/// **The bot is deployed with the token and for the administrator that were typed**, without the
/// blanks around them; a token or an id that is none is told instead.
pub proof fn law_bot_is_deployed_as_typed(
    s: AppV,
    key: KeyEvent,
    token: &str,
    admin: &str,
    valid: bool,
    id: Option<i64>,
)
    requires
        s.screen == Screen::TelegramSetup,
        !key.control,
        key.code != KeyCode::Esc,
        s.telegram.deploy_requested && !s.pending_deploy,
        token@ == text::trimmed(s.telegram.token),
        admin@ == text::trimmed(s.telegram.admin_id),
        call_ensures(is_valid_token, (token,), valid),
        call_ensures(parse_i64, (admin,), id),
    ensures
        ({
            let t = keys::key_step(s, key, false, Option::<UserV>::None);
            &&& valid && id is Some ==> t.effects == seq![EffectV::SaveTelegram(token@)]
                && t.app.config.telegram_token == Some(token@)
                && t.app.config.telegram_admin_chat_id == id && t.app.config.host
                == s.config.host
            &&& !valid ==> t.effects.len() == 0 && t.app.config == s.config
                && t.app.telegram.deploy_status == DeployV::Error(
                "Invalid token format (expected digits:secret)"@,
            )
            &&& valid && id is None ==> t.effects.len() == 0 && t.app.config == s.config
                && t.app.telegram.deploy_status == DeployV::Error(
                "Invalid Admin ID (must be a number)"@,
            )
        }),
{
}

/// **A deployment begins once its settings are saved**, with the same token, and what came of it is
/// told.
pub proof fn law_deployment_is_told(s: AppV, token: Seq<char>, m: String, e: String, now: nat)
    requires
        s.screen == Screen::TelegramSetup,
        text::bytes(e@) <= 60,
    ensures
        ({
            let t = keys::telegram_saved_step(s, token, Ok::<(), Seq<char>>(()));
            t.effects == seq![EffectV::DeployBot(token)] && t.app.pending_deploy
                && t.app.telegram.deploy_status is Connecting
        }),
        ({
            let t = keys::telegram_saved_step(s, token, Err::<(), Seq<char>>(e@));
            t.effects.len() == 0 && t.app.telegram.deploy_status == DeployV::Error(
                "Config save failed: "@ + e@,
            ) && t.app.pending_deploy == s.pending_deploy
        }),
        ({
            let t = messages::msg_step(s, BackendMsg::DeployBot(Ok::<String, String>(m)), now);
            t.app.telegram.deploy_status == DeployV::Success(m@) && t.app.status == m@
                && !t.app.pending_deploy
        }),
        ({
            let t = messages::msg_step(s, BackendMsg::DeployBot(Err::<String, String>(e)), now);
            t.app.telegram.deploy_status == DeployV::Error(e@) && t.app.status
                == "Deploy failed: "@ + e@ && !t.app.pending_deploy
        }),
{
}

// ---- beginning ----

/// **The application begins on the dashboard where it knows where to connect**, and on the setup form
/// elsewhere, filled in from the configuration.
pub proof fn law_first_screen(c: Config, r: App, form: SetupState)
    requires
        call_ensures(App::with_config, (c,), r),
        call_ensures(SetupState::from_config, (&c,), form),
    ensures
        (r.screen == Screen::Dashboard) == (c.host is Some || c.ssh_host is Some),
        (r.screen == Screen::Setup) == (c.host is None && c.ssh_host is None),
        r.running && !r.pending_refresh && !r.pending_test && !r.pending_deploy,
        r.config@ == c@,
        r.setup_state@ == form@,
        c.host matches Some(h) ==> r.dashboard_state.server_host@ == h@,
        c.telegram_token matches Some(t) ==> r.telegram_setup_state.token@ == t@,
        c.telegram_token is None ==> r.telegram_setup_state.token@.len() == 0,
{
    assert(r@.screen == r.screen);
    assert(r@.dashboard.server_host == r.dashboard_state.server_host@);
    assert(r@.telegram.token == r.telegram_setup_state.token@);
}

/// **The dashboard is due after five seconds.**
pub proof fn law_dashboard_is_due(a: App, ms: u64, r: bool)
    requires
        call_ensures(App::should_refresh, (&a, ms), r),
    ensures
        r == (ms >= 5000),
{
}

/// **The status bar says what there is to say, and then the keys of the screen.**
pub proof fn law_status_bar_tells_the_keys(a: App, hints: String, r: String)
    requires
        call_ensures(App::keybind_hints, (&a,), hints),
        call_ensures(App::status_bar, (&a,), r),
    ensures
        a.status_message@.len() == 0 ==> r@ == hints@,
        a.status_message@.len() > 0 ==> r@ == a.status_message@ + " | "@ + hints@,
{
}

/// **Each screen is called by its own name.**
pub proof fn law_screens_are_named(a: App, r: &'static str)
    requires
        call_ensures(App::screen_label, (&a,), r),
    ensures
        a.screen == Screen::Setup ==> r@ == "Setup"@,
        a.screen == Screen::Dashboard ==> r@ == "Dashboard"@,
        a.screen == Screen::UserDetail ==> r@ == "User Detail"@,
        a.screen == Screen::AddUser ==> r@ == "Add User"@,
        a.screen == Screen::QrView ==> r@ == "QR Code"@,
        a.screen == Screen::TelegramSetup ==> r@ == "Telegram Bot"@,
{
}

/// **Two configurations are the same where they say the same**, in every field.
pub proof fn law_same_configurations(a: Config, b: Config, r: bool)
    requires
        call_ensures(same_config, (&a, &b), r),
    ensures
        r ==> a.port == b.port && a.user@ == b.user@ && a.container@ == b.container@ && (a.host
            is Some == b.host is Some) && (a.host is Some ==> a.host->0@ == b.host->0@) && (
        a.ssh_host is Some == b.ssh_host is Some) && (a.ssh_host is Some ==> a.ssh_host->0@
            == b.ssh_host->0@) && (a.key_path is Some == b.key_path is Some) && (a.key_path
            is Some ==> a.key_path->0@ == b.key_path->0@),
        a.port != b.port || a.user@ != b.user@ || a.container@ != b.container@ ==> !r,
        a == b ==> r,
{
    assert(a@.host == text::opt_text(a.host) && b@.host == text::opt_text(b.host));
    assert(a@.ssh_host == text::opt_text(a.ssh_host) && b@.ssh_host == text::opt_text(b.ssh_host));
    assert(a@.key_path == text::opt_text(a.key_path) && b@.key_path == text::opt_text(b.key_path));
}

// ---- time ----

/// **The dashboard is refreshed after five seconds**, once at a time, and no other screen is.
pub proof fn law_dashboard_is_refreshed(a: &mut App, ms: u64, r: Vec<Effect>)
    requires
        call_ensures(App::tick, (a, ms), r),
        old(a).wf(),
    ensures
        old(a)@.screen != Screen::Dashboard || ms < 5000 || old(a)@.pending_refresh ==> r@.len() == 0
            && final(a)@ == old(a)@,
        old(a)@.screen == Screen::Dashboard && ms >= 5000 && !old(a)@.pending_refresh ==> r@.len()
            == 1 && (r@[0] matches Effect::FetchDashboard { api_check_done, fetch_version }
            && api_check_done == old(a)@.api_check_done && fetch_version
            == !old(a)@.version_check_done) && final(a)@.pending_refresh && final(a)@.status
            == "Refreshing..."@ && final(a)@.screen == Screen::Dashboard && final(a)@.dashboard
            == old(a)@.dashboard,
{
    assert(app::effect_views(r@).len() == r@.len());
    if r@.len() > 0 {
        assert(app::effect_views(r@)[0] == r@[0]@);
    }
}

/// **A refresh that is asked for is begun on any screen**, unless one is under way.
pub proof fn law_refresh_is_begun(a: &mut App, r: Vec<Effect>)
    requires
        call_ensures(App::trigger_refresh, (a,), r),
        old(a).wf(),
    ensures
        old(a)@.pending_refresh ==> r@.len() == 0 && final(a)@ == old(a)@,
        !old(a)@.pending_refresh ==> r@.len() == 1 && r@[0] is FetchDashboard
            && final(a)@.pending_refresh && final(a)@.screen == old(a)@.screen,
{
    assert(app::effect_views(r@).len() == r@.len());
    if r@.len() > 0 {
        assert(app::effect_views(r@)[0] == r@[0]@);
    }
}

/// **The application ends where it is told to**, and changes nothing else.
pub proof fn law_application_ends(a: &mut App)
    requires
        call_ensures(App::quit, (a,), ()),
    ensures
        !final(a)@.running,
        final(a)@.screen == old(a)@.screen,
        final(a)@.config == old(a)@.config,
        final(a)@.status == old(a)@.status,
        final(a)@.dashboard == old(a)@.dashboard,
{
}

/// **Messages are worked on one after the other**, each in the state that the one before it left.
pub proof fn law_messages_are_worked_on_in_order(
    s: AppV,
    first: BackendMsg,
    rest: Seq<BackendMsg>,
    now: nat,
)
    ensures
        messages::msgs_step(s, Seq::empty(), now).app == s,
        messages::msgs_step(s, Seq::empty(), now).effects.len() == 0,
        messages::msgs_step(s, seq![first] + rest, now).app == messages::msgs_step(
            messages::msg_step(s, first, now).app,
            rest,
            now,
        ).app,
        messages::msgs_step(s, seq![first] + rest, now).effects == messages::msg_step(
            s,
            first,
            now,
        ).effects + messages::msgs_step(messages::msg_step(s, first, now).app, rest, now).effects,
{
    assert((seq![first] + rest).skip(1) =~= rest);
}

// ---- what is told ----

/// **Each screen tells its own keys.**
pub proof fn law_keys_are_told(a: App, r: String)
    requires
        call_ensures(App::keybind_hints, (&a,), r),
    ensures
        a.screen == Screen::Dashboard ==> r@
            == "[a]dd user  [d]elete  [r]efresh  [t]elegram bot  [q]uit  [Enter] detail"@,
        a.screen == Screen::Setup ==> r@ == "[Tab] next field  [Enter] confirm  [Esc] quit"@,
        a.screen == Screen::UserDetail ==> r@ == "[Esc] back  [d]elete  [c]opy URL  [q] QR code"@,
        a.screen == Screen::AddUser ==> r@ == "[Enter] confirm  [Esc] cancel"@,
        a.screen == Screen::QrView ==> r@ == "[Esc/q] back"@,
        a.screen == Screen::TelegramSetup ==> r@
            == "[Tab] next field  [Enter] confirm  [Esc] back"@,
{
}

/// **A change is told, and the dashboard is fetched again after it**: at once, or when the fetch that
/// is under way has ended.
pub proof fn law_changes_are_told(s: AppV, a: AddedUser, id: String, now: nat)
    ensures
        ({
            let t = messages::msg_step(s, BackendMsg::UserAdded(Ok(a)), now);
            let d = messages::msg_step(s, BackendMsg::UserDeleted(Ok::<String, String>(id)), now);
            &&& s.pending_refresh ==> t.app.status == "User '"@ + a.name@ + "' added successfully"@
                && d.app.status == "User deleted"@ && t.app.refresh_after_mutation
                && d.app.refresh_after_mutation && t.effects.len() == 0 && d.effects.len() == 0
            &&& !s.pending_refresh ==> t.effects == seq![
                EffectV::FetchDashboard(s.api_check_done, !s.version_check_done),
            ] && d.effects == t.effects && t.app.pending_refresh && d.app.pending_refresh
        }),
{
}

/// **A fetch that a change has overtaken is begun anew**, whatever came of it.
pub proof fn law_overtaken_fetch_is_begun_anew(
    s: AppV,
    r: Result<DashboardData, String>,
    now: nat,
)
    requires
        s.refresh_after_mutation,
    ensures
        ({
            let t = messages::msg_step(s, BackendMsg::DashboardData(r), now);
            t.effects == seq![EffectV::FetchDashboard(s.api_check_done, !s.version_check_done)]
                && t.app.pending_refresh && !t.app.refresh_after_mutation && t.app.dashboard
                == s.dashboard
        }),
{
}

/// **The time of a fetch is told**, and that a QR code is made.
pub proof fn law_time_of_a_fetch_is_told(
    s: AppV,
    d: DashboardData,
    now: u64,
    clock: String,
    u: UserV,
    shift: bool,
)
    requires
        call_ensures(chrono_free_timestamp, (now,), clock),
    ensures
        !s.refresh_after_mutation ==> messages::msg_step(
            s,
            BackendMsg::DashboardData(Ok(d)),
            now as nat,
        ).app.status == "Last update: "@ + clock@,
        s.screen == Screen::UserDetail && s.detail.user == Some(u) && s.detail.mode is View
            && s.detail.cached_vless_url is None ==> keys::key_step(
            s,
            KeyEvent { code: KeyCode::Char('q'), shift, control: false },
            false,
            Option::<UserV>::None,
        ).app.status == "Generating QR code..."@,
{
}

} // verus!
