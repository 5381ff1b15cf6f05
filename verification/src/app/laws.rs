//! Laws of the application.

use crate::app::keys;
use crate::app::messages;
use crate::app::{AppV, EffectV, Screen, StepV};
use crate::backend::{AddedUser, BackendMsg, DashboardData, VlessUrlIntent};
use crate::config::ConfigV;
use crate::ui::keys::{KeyCode, KeyEvent};
use crate::ui::setup;
use crate::xray::types::UserV;
use vstd::prelude::*;

verus! {

/// A user is being added or deleted.
pub open spec fn changing(s: AppV) -> bool {
    s.pending_add_name is Some || s.pending_delete_uuid is Some
}

/// An effect that adds or deletes a user.
pub open spec fn changes(e: EffectV) -> bool {
    e is AddUser || e is DeleteUser
}

/// The step sets a change in motion only while none is under way, at most one, and its state then
/// says that one is.
pub open spec fn begins_one_change(s: AppV, t: StepV) -> bool {
    &&& !(t.app.pending_add_name is Some && t.app.pending_delete_uuid is Some)
    &&& forall|i: int|
        0 <= i < t.effects.len() && changes(#[trigger] t.effects[i]) ==> !changing(s) && changing(
            t.app,
        )
    &&& forall|i: int, j: int|
        0 <= i < t.effects.len() && 0 <= j < t.effects.len() && changes(#[trigger] t.effects[i])
            && changes(#[trigger] t.effects[j]) ==> i == j
}

/// The step begins a fetch of the dashboard only while none is under way, or where it has ended,
/// and its state then says that one is.
pub open spec fn begins_one_fetch(s: AppV, ended: bool, t: StepV) -> bool {
    forall|i: int|
        0 <= i < t.effects.len() && (#[trigger] t.effects[i]) is FetchDashboard ==> (
        !s.pending_refresh || ended) && t.app.pending_refresh
}

proof fn lemma_dashboard_key(s: AppV, code: KeyCode, selected: Option<UserV>)
    ensures
        !(s.pending_add_name is Some && s.pending_delete_uuid is Some) ==> begins_one_change(
            s,
            keys::dashboard_key(s, code, selected),
        ),
        begins_one_fetch(s, false, keys::dashboard_key(s, code, selected)),
{
}

proof fn lemma_setup_key(s: AppV, key: KeyEvent)
    ensures
        !(s.pending_add_name is Some && s.pending_delete_uuid is Some) ==> begins_one_change(
            s,
            keys::setup_key(s, key),
        ),
        begins_one_fetch(s, false, keys::setup_key(s, key)),
{
}

proof fn lemma_detail_key(s: AppV, code: KeyCode, consumed: bool)
    ensures
        !(s.pending_add_name is Some && s.pending_delete_uuid is Some) ==> begins_one_change(
            s,
            keys::detail_key(s, code, consumed),
        ),
        begins_one_fetch(s, false, keys::detail_key(s, code, consumed)),
{
}

proof fn lemma_add_user_key(s: AppV, code: KeyCode, consumed: bool)
    ensures
        !(s.pending_add_name is Some && s.pending_delete_uuid is Some) ==> begins_one_change(
            s,
            keys::add_user_key(s, code, consumed),
        ),
        begins_one_fetch(s, false, keys::add_user_key(s, code, consumed)),
{
}

proof fn lemma_other_keys(s: AppV, code: KeyCode)
    ensures
        !(s.pending_add_name is Some && s.pending_delete_uuid is Some) ==> begins_one_change(
            s,
            keys::telegram_key(s, code),
        ) && begins_one_change(s, keys::qr_key(s, code)),
        begins_one_fetch(s, false, keys::telegram_key(s, code)),
        begins_one_fetch(s, false, keys::qr_key(s, code)),
{
}

/// The step sets no change in motion.
pub open spec fn begins_no_change(s: AppV, t: StepV) -> bool {
    &&& t.app.pending_add_name is Some ==> s.pending_add_name is Some
    &&& t.app.pending_delete_uuid is Some ==> s.pending_delete_uuid is Some
    &&& forall|i: int| 0 <= i < t.effects.len() ==> !changes(#[trigger] t.effects[i])
}

proof fn lemma_dashboard_step(s: AppV, r: Result<DashboardData, String>, now: nat)
    ensures
        begins_no_change(s, messages::dashboard_step(s, r, now)),
        begins_one_fetch(s, true, messages::dashboard_step(s, r, now)),
{
}

proof fn lemma_test_step(s: AppV, r: Result<String, String>)
    ensures
        begins_no_change(s, messages::test_step(s, r)),
        begins_one_fetch(s, false, messages::test_step(s, r)),
{
}

proof fn lemma_added_step(s: AppV, r: Result<AddedUser, String>)
    ensures
        begins_no_change(s, messages::added_step(s, r)),
        begins_one_fetch(s, false, messages::added_step(s, r)),
{
}

proof fn lemma_deleted_step(s: AppV, r: Result<String, String>)
    ensures
        begins_no_change(s, messages::deleted_step(s, r)),
        begins_one_fetch(s, false, messages::deleted_step(s, r)),
{
}

proof fn lemma_url_step(s: AppV, r: Result<AddedUser, String>, intent: VlessUrlIntent)
    ensures
        begins_no_change(s, messages::url_step(s, r, intent)),
        begins_one_fetch(s, false, messages::url_step(s, r, intent)),
{
}

proof fn lemma_ips_step(s: AppV, r: Result<(String, Vec<String>), (String, String)>)
    ensures
        begins_no_change(s, messages::ips_step(s, r)),
        begins_one_fetch(s, false, messages::ips_step(s, r)),
{
}

proof fn lemma_deployed_step(s: AppV, r: Result<String, String>)
    ensures
        begins_no_change(s, messages::deployed_step(s, r)),
        begins_one_fetch(s, false, messages::deployed_step(s, r)),
{
}

proof fn lemma_message(s: AppV, msg: BackendMsg, now: nat)
    ensures
        begins_no_change(s, messages::msg_step(s, msg, now)),
        begins_one_fetch(s, msg is DashboardData, messages::msg_step(s, msg, now)),
{
    match msg {
        BackendMsg::DashboardData(r) => lemma_dashboard_step(s, r, now),
        BackendMsg::ConnectionTest(r) => lemma_test_step(s, r),
        BackendMsg::UserAdded(r) => lemma_added_step(s, r),
        BackendMsg::UserDeleted(r) => lemma_deleted_step(s, r),
        BackendMsg::VlessUrl(r, intent) => lemma_url_step(s, r, intent),
        BackendMsg::OnlineIps(r) => lemma_ips_step(s, r),
        BackendMsg::DeployBot(r) => lemma_deployed_step(s, r),
        BackendMsg::DeployProgress(_) => {},
    }
}

proof fn lemma_key(s: AppV, key: KeyEvent, consumed: bool, selected: Option<UserV>)
    ensures
        !(s.pending_add_name is Some && s.pending_delete_uuid is Some) ==> begins_one_change(
            s,
            keys::key_step(s, key, consumed, selected),
        ),
        begins_one_fetch(s, false, keys::key_step(s, key, consumed, selected)),
{
    lemma_dashboard_key(s, key.code, selected);
    lemma_setup_key(s, key);
    lemma_detail_key(s, key.code, consumed);
    lemma_add_user_key(s, key.code, consumed);
    lemma_other_keys(s, key.code);
}

/// **At most one change is under way.** A key sets a change in motion only while none is under
/// way, at most one, and the state then says that one is. No message sets one in motion.
pub proof fn law_one_change_at_a_time(
    s: AppV,
    key: KeyEvent,
    consumed: bool,
    selected: Option<UserV>,
    msg: BackendMsg,
    now: nat,
)
    requires
        !(s.pending_add_name is Some && s.pending_delete_uuid is Some),
    ensures
        begins_one_change(s, keys::key_step(s, key, consumed, selected)),
        begins_no_change(s, messages::msg_step(s, msg, now)),
{
    lemma_key(s, key, consumed, selected);
    lemma_message(s, msg, now);
}

/// **At most one fetch of the dashboard is under way.** A key or a saved setup begins one only while
/// none is, a message only while none is or where it ends the one that is, and the state then says
/// that one is.
pub proof fn law_one_fetch_at_a_time(
    s: AppV,
    key: KeyEvent,
    consumed: bool,
    selected: Option<UserV>,
    msg: BackendMsg,
    now: nat,
    config: ConfigV,
    saved: Result<(), Seq<char>>,
)
    ensures
        begins_one_fetch(s, false, keys::key_step(s, key, consumed, selected)),
        begins_one_fetch(s, msg is DashboardData, messages::msg_step(s, msg, now)),
        begins_one_fetch(s, false, keys::setup_saved_step(s, config, saved)),
{
    lemma_key(s, key, consumed, selected);
    lemma_message(s, msg, now);
}

/// The step asks for the newest version only while that was not done, and does not forget that it
/// was.
pub open spec fn asks_version_once(s: AppV, t: StepV) -> bool {
    s.version_check_done ==> t.app.version_check_done && forall|i: int|
        0 <= i < t.effects.len() && (#[trigger] t.effects[i]) is FetchDashboard
            ==> !t.effects[i]->FetchDashboard_1
}

/// The step begins a test of the connection only while none is under way, and its state then says
/// that one is.
pub open spec fn begins_one_test(s: AppV, t: StepV) -> bool {
    forall|i: int|
        0 <= i < t.effects.len() && (#[trigger] t.effects[i]) is TestConnection ==> !s.pending_test
            && t.app.pending_test
}

/// The step asks for a deployment only while none is under way.
pub open spec fn asks_one_deployment(s: AppV, t: StepV) -> bool {
    forall|i: int|
        0 <= i < t.effects.len() && (#[trigger] t.effects[i]) is SaveTelegram ==> !s.pending_deploy
}

/// All three of them.
pub open spec fn asks_once(s: AppV, t: StepV) -> bool {
    asks_version_once(s, t) && begins_one_test(s, t) && asks_one_deployment(s, t)
}

proof fn lemma_dashboard_key_asks(s: AppV, code: KeyCode, selected: Option<UserV>)
    ensures
        asks_once(s, keys::dashboard_key(s, code, selected)),
{
}

proof fn lemma_setup_key_asks(s: AppV, key: KeyEvent)
    ensures
        asks_once(s, keys::setup_key(s, key)),
{
}

proof fn lemma_detail_key_asks(s: AppV, code: KeyCode, consumed: bool)
    ensures
        asks_once(s, keys::detail_key(s, code, consumed)),
{
}

proof fn lemma_add_user_key_asks(s: AppV, code: KeyCode, consumed: bool)
    ensures
        asks_once(s, keys::add_user_key(s, code, consumed)),
{
}

proof fn lemma_other_keys_ask(s: AppV, code: KeyCode)
    ensures
        asks_once(s, keys::telegram_key(s, code)),
        asks_once(s, keys::qr_key(s, code)),
{
}

proof fn lemma_key_asks(s: AppV, key: KeyEvent, consumed: bool, selected: Option<UserV>)
    ensures
        asks_once(s, keys::key_step(s, key, consumed, selected)),
{
    lemma_dashboard_key_asks(s, key.code, selected);
    lemma_setup_key_asks(s, key);
    lemma_detail_key_asks(s, key.code, consumed);
    lemma_add_user_key_asks(s, key.code, consumed);
    lemma_other_keys_ask(s, key.code);
}

proof fn lemma_dashboard_step_asks(s: AppV, r: Result<DashboardData, String>, now: nat)
    ensures
        asks_once(s, messages::dashboard_step(s, r, now)),
{
}

proof fn lemma_test_step_asks(s: AppV, r: Result<String, String>)
    ensures
        asks_once(s, messages::test_step(s, r)),
{
}

proof fn lemma_added_step_asks(s: AppV, r: Result<AddedUser, String>)
    ensures
        asks_once(s, messages::added_step(s, r)),
{
}

proof fn lemma_deleted_step_asks(s: AppV, r: Result<String, String>)
    ensures
        asks_once(s, messages::deleted_step(s, r)),
{
}

proof fn lemma_url_step_asks(s: AppV, r: Result<AddedUser, String>, intent: VlessUrlIntent)
    ensures
        asks_once(s, messages::url_step(s, r, intent)),
{
}

proof fn lemma_ips_step_asks(s: AppV, r: Result<(String, Vec<String>), (String, String)>)
    ensures
        asks_once(s, messages::ips_step(s, r)),
{
}

proof fn lemma_deployed_step_asks(s: AppV, r: Result<String, String>)
    ensures
        asks_once(s, messages::deployed_step(s, r)),
{
}

proof fn lemma_message_asks(s: AppV, msg: BackendMsg, now: nat)
    ensures
        asks_once(s, messages::msg_step(s, msg, now)),
{
    match msg {
        BackendMsg::DashboardData(r) => lemma_dashboard_step_asks(s, r, now),
        BackendMsg::ConnectionTest(r) => lemma_test_step_asks(s, r),
        BackendMsg::UserAdded(r) => lemma_added_step_asks(s, r),
        BackendMsg::UserDeleted(r) => lemma_deleted_step_asks(s, r),
        BackendMsg::VlessUrl(r, intent) => lemma_url_step_asks(s, r, intent),
        BackendMsg::OnlineIps(r) => lemma_ips_step_asks(s, r),
        BackendMsg::DeployBot(r) => lemma_deployed_step_asks(s, r),
        BackendMsg::DeployProgress(_) => {},
    }
}

/// **The newest version is asked for once.** Once it was shown, no key, no message and no saved
/// setup asks for it again.
pub proof fn law_version_is_asked_once(
    s: AppV,
    key: KeyEvent,
    consumed: bool,
    selected: Option<UserV>,
    msg: BackendMsg,
    now: nat,
    config: ConfigV,
    saved: Result<(), Seq<char>>,
)
    ensures
        asks_version_once(s, keys::key_step(s, key, consumed, selected)),
        asks_version_once(s, messages::msg_step(s, msg, now)),
        asks_version_once(s, keys::setup_saved_step(s, config, saved)),
        (msg matches BackendMsg::DashboardData(r) && r matches Ok(d) && d.version_was_fetched
            && !s.refresh_after_mutation) ==> messages::msg_step(s, msg, now).app.version_check_done,
{
    lemma_key_asks(s, key, consumed, selected);
    lemma_message_asks(s, msg, now);
}

/// **At most one test of the connection is under way.** A key, a message or a saved setup begins
/// one only while none is, and the state then says that one is.
pub proof fn law_one_test_at_a_time(
    s: AppV,
    key: KeyEvent,
    consumed: bool,
    selected: Option<UserV>,
    msg: BackendMsg,
    now: nat,
    config: ConfigV,
    saved: Result<(), Seq<char>>,
)
    ensures
        begins_one_test(s, keys::key_step(s, key, consumed, selected)),
        begins_one_test(s, messages::msg_step(s, msg, now)),
        begins_one_test(s, keys::setup_saved_step(s, config, saved)),
{
    lemma_key_asks(s, key, consumed, selected);
    lemma_message_asks(s, msg, now);
}

/// **At most one deployment is under way.** A key or a message asks for one only while none is, and
/// where one is begun, once the settings are saved, the state says so.
pub proof fn law_one_deployment_at_a_time(
    s: AppV,
    key: KeyEvent,
    consumed: bool,
    selected: Option<UserV>,
    msg: BackendMsg,
    now: nat,
    token: Seq<char>,
    saved: Result<(), Seq<char>>,
)
    ensures
        asks_one_deployment(s, keys::key_step(s, key, consumed, selected)),
        asks_one_deployment(s, messages::msg_step(s, msg, now)),
        ({
            let t = keys::telegram_saved_step(s, token, saved);
            forall|i: int|
                0 <= i < t.effects.len() && (#[trigger] t.effects[i]) is DeployBot
                    ==> t.app.pending_deploy
        }),
{
    lemma_key_asks(s, key, consumed, selected);
    lemma_message_asks(s, msg, now);
}

/// **A change is followed by a fetch that was begun after it.** Once a user was added or deleted,
/// a fetch is begun at once, or as soon as the one under way has ended, whose result is discarded.
pub proof fn law_change_is_fetched(
    s: AppV,
    msg: BackendMsg,
    result: Result<DashboardData, String>,
    now: nat,
    later: nat,
)
    requires
        match msg {
            BackendMsg::UserAdded(r) => r is Ok,
            BackendMsg::UserDeleted(r) => r is Ok,
            _ => false,
        },
    ensures
        ({
            let t = messages::msg_step(s, msg, now);
            let u = messages::msg_step(t.app, BackendMsg::DashboardData(result), later);
            if s.pending_refresh {
                &&& t.app.refresh_after_mutation
                &&& u.app.dashboard == t.app.dashboard
                &&& u.effects.len() == 1
                &&& u.effects[0] is FetchDashboard
            } else {
                &&& t.effects.len() == 1
                &&& t.effects[0] is FetchDashboard
            }
        }),
{
}

/// **Results for what is no longer shown are discarded.** A URL for a user that is not shown does
/// nothing, and a tested connection says nothing of a form that was edited since.
pub proof fn law_stale_results_do_nothing(
    s: AppV,
    user: AddedUser,
    intent: VlessUrlIntent,
    tested: Result<String, String>,
    now: nat,
)
    ensures
        !messages::showing(s, user.uuid@) && !messages::added(s, user.uuid@) ==> ({
            let t = messages::msg_step(s, BackendMsg::VlessUrl(Ok(user), intent), now);
            t.app == s && t.effects.len() == 0
        }),
        s.tested_config is Some && s.tested_config != Some(setup::config_of(s.setup)) ==> ({
            let t = messages::msg_step(s, BackendMsg::ConnectionTest(tested), now);
            t.app.setup == s.setup && t.effects.len() == 0
        }),
{
}

/// **The setup form keeps the bot.** What it saves holds the token and the administrator that
/// were configured before.
pub proof fn law_setup_keeps_bot(s: AppV, key: KeyEvent, consumed: bool, selected: Option<UserV>)
    requires
        s.screen == Screen::Setup,
    ensures
        ({
            let t = keys::key_step(s, key, consumed, selected);
            forall|i: int|
                0 <= i < t.effects.len() && (#[trigger] t.effects[i]) is SaveSetup ==> ({
                    let c = t.effects[i]->SaveSetup_0;
                    c.telegram_token == s.config.telegram_token && c.telegram_admin_chat_id
                        == s.config.telegram_admin_chat_id
                })
        }),
{
}

/// **Control and `c` or `q` end the application** on every screen, and do nothing else.
pub proof fn law_control_quits(s: AppV, key: KeyEvent, consumed: bool, selected: Option<UserV>)
    requires
        key.control,
        key.code == KeyCode::Char('c') || key.code == KeyCode::Char('q'),
    ensures
        ({
            let t = keys::key_step(s, key, consumed, selected);
            t.app == (AppV { running: false, ..s }) && t.effects.len() == 0
        }),
{
}

} // verus!
