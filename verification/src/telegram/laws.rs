//! Laws of the bot.

use crate::config::Config;
use crate::telegram::keyboards::{
    CONFIG_PREFIX, DELETE_CANCEL_PREFIX, DELETE_CONFIRM_PREFIX, DELETE_PREFIX, QR_PREFIX,
    MAX_CALLBACK_DATA_BYTES, RESTORE_PREFIX, UPGRADE_CONFIRM_PREFIX, URL_PREFIX,
};
use crate::telegram::talk;
use crate::telegram::talk::{ActV, Command, Opening, Place, Talk};
use crate::telegram::texts;
use crate::text;
use crate::work;
use crate::work::Got;
use crate::xray::client;
use vstd::prelude::*;

verus! {

/// **Nobody but the administrator is served.** A command or a button of anybody else is answered
/// that access is denied, and nothing is asked of the server.
pub proof fn law_only_admin_is_served(
    config: Config,
    who: i64,
    cmd: Command,
    data: &str,
    a: Opening,
    b: Opening,
)
    requires
        config.telegram_admin_chat_id != Some(who),
        call_ensures(talk::handle_command, (&config, who, cmd), a),
        call_ensures(talk::handle_callback, (&config, who, data), b),
    ensures
        a.acts@.len() == 0 && a.talk.wants() is None,
        talk::ends(
            a.talk,
            seq![
                ActV::Send(talk::plain("Access denied. Contact the server administrator."@)),
            ],
        ),
        b.acts@.len() == 0 && b.talk.wants() is None,
        talk::ends(b.talk, seq![ActV::Answer(Some("Access denied."@))]),
{
}

/// The conversation removes a user.
pub open spec fn removes(t: Talk) -> bool {
    t is Delete || t is DeleteRemove
}

/// **A user is removed only after that was confirmed.** No command leads there, no conversation
/// that does not remove a user gets to where one is removed, and of the buttons only the one that
/// confirms does, for the user whose id is in its data.
pub proof fn law_removal_is_confirmed(
    config: Config,
    cmd: Command,
    data: Seq<char>,
    o: Opening,
    t: Talk,
    got: Got,
    r: Talk,
)
    ensures
        talk::begins_with(config, cmd, o) ==> !removes(o.talk),
        talk::begins_at(config, data, o) && removes(o.talk) ==> (o.talk matches Talk::Delete {
            uuid,
            ..
        } && text::after_prefix(data, DELETE_CONFIRM_PREFIX@) == Some(uuid@)),
        !removes(t) && work::fits(t.wants(), got) && talk::after(t, got, r) ==> !removes(r),
        t.wants() is Some && t.wants()->0 is RemoveUser ==> removes(t),
{
    lemma_no_removal(t, got, r);
}

proof fn lemma_no_removal(t: Talk, got: Got, r: Talk)
    ensures
        !removes(t) && work::fits(t.wants(), got) && talk::after(t, got, r) ==> !removes(r),
{
}

/// **Xray is upgraded only after that was confirmed.** No command leads there and no conversation
/// gets there: only the button that confirms does.
pub proof fn law_upgrade_is_confirmed(
    config: Config,
    cmd: Command,
    data: Seq<char>,
    o: Opening,
    t: Talk,
    got: Got,
    r: Talk,
)
    ensures
        talk::begins_with(config, cmd, o) ==> !(o.talk is Upgrade),
        talk::begins_at(config, data, o) && o.talk is Upgrade ==> data == UPGRADE_CONFIRM_PREFIX@,
        work::fits(t.wants(), got) && talk::after(t, got, r) ==> !(r is Upgrade),
        t.wants() is Some && t.wants()->0 is Upgrade ==> t is Upgrade,
{
    lemma_no_upgrade(t, got, r);
}

proof fn lemma_no_upgrade(t: Talk, got: Got, r: Talk)
    ensures
        work::fits(t.wants(), got) && talk::after(t, got, r) ==> !(r is Upgrade),
{
}

proof fn lemma_prefix_bytes()
    ensures
        text::bytes(CONFIG_PREFIX@) == 7,
        text::bytes(URL_PREFIX@) == 4,
        text::bytes(QR_PREFIX@) == 3,
        text::bytes(DELETE_PREFIX@) == 7,
        text::bytes(DELETE_CONFIRM_PREFIX@) == 15,
        text::bytes(DELETE_CANCEL_PREFIX@) == 14,
{
    lemma_prefixes();
    text::lemma_bytes_ascii(CONFIG_PREFIX@);
    text::lemma_bytes_ascii(URL_PREFIX@);
    text::lemma_bytes_ascii(QR_PREFIX@);
    text::lemma_bytes_ascii(DELETE_PREFIX@);
    text::lemma_bytes_ascii(DELETE_CONFIRM_PREFIX@);
    text::lemma_bytes_ascii(DELETE_CANCEL_PREFIX@);
}

/// **A name that the bot takes can be added and has its buttons.** The server does not refuse it
/// for what it is, and the data of every button for a user of that name has room for it.
pub proof fn law_valid_names_are_usable(name: Seq<char>)
    requires
        texts::name_problem(name) is None,
    ensures
        client::name_fault(text::trimmed(name)) is None,
        text::bytes(CONFIG_PREFIX@ + text::trimmed(name)) <= MAX_CALLBACK_DATA_BYTES,
        text::bytes(URL_PREFIX@ + text::trimmed(name)) <= MAX_CALLBACK_DATA_BYTES,
        text::bytes(QR_PREFIX@ + text::trimmed(name)) <= MAX_CALLBACK_DATA_BYTES,
        text::bytes(DELETE_PREFIX@ + text::trimmed(name)) <= MAX_CALLBACK_DATA_BYTES,
{
    let t = text::trimmed(name);
    text::law_trimming_is_idempotent(name);
    lemma_prefix_bytes();
    text::lemma_bytes_add(CONFIG_PREFIX@, t);
    text::lemma_bytes_add(URL_PREFIX@, t);
    text::lemma_bytes_add(QR_PREFIX@, t);
    text::lemma_bytes_add(DELETE_PREFIX@, t);
}

/// **The id of a user fits into the buttons that confirm and cancel its deletion.**
pub proof fn law_ids_fit(id: Seq<char>)
    requires
        client::is_uuid(id),
    ensures
        text::bytes(DELETE_CONFIRM_PREFIX@ + id) <= MAX_CALLBACK_DATA_BYTES,
        text::bytes(DELETE_CANCEL_PREFIX@ + id) <= MAX_CALLBACK_DATA_BYTES,
{
    assert forall|i: int| 0 <= i < id.len() implies (#[trigger] id[i]) < '\u{80}' by {
        assert(id[i] == '-' || text::is_digit(id[i]) || 'a' <= id[i] <= 'f');
    }
    text::lemma_bytes_ascii(id);
    lemma_prefix_bytes();
    text::lemma_bytes_add(DELETE_CONFIRM_PREFIX@, id);
    text::lemma_bytes_add(DELETE_CANCEL_PREFIX@, id);
}

/// How many steps a conversation can still take.
pub open spec fn steps_left(t: Talk) -> nat {
    match t {
        Talk::Users { .. } => 3,
        Talk::UsersTraffic { .. } => 2,
        Talk::UsersBridge { .. } => 1,
        Talk::Status { .. } => 6,
        Talk::StatusUsers { .. } => 5,
        Talk::StatusOnline { .. } => 4,
        Talk::StatusUptime { .. } => 3,
        Talk::StatusLatest { .. } => 2,
        Talk::StatusHealth { .. } => 1,
        Talk::Add { .. } => 4,
        Talk::AddBridgeUrl { .. } => 3,
        Talk::AddDirectUrl { .. } => 2,
        Talk::AddRegister { .. } => 1,
        Talk::Choose { .. } => 1,
        Talk::Prompt { .. } => 1,
        Talk::Delete { .. } => 3,
        Talk::DeleteRemove { .. } => 2,
        Talk::DeleteUnregister { .. } => 1,
        Talk::Config { .. } => 3,
        Talk::ConfigBridgeUrl { .. } => 2,
        Talk::ConfigDirectUrl { .. } => 1,
        Talk::Qr { .. } => 5,
        Talk::QrBridgeUrl { .. } => 4,
        Talk::QrDirectUrl { .. } => 3,
        Talk::QrBridge { .. } => 2,
        Talk::QrDirect { .. } => 1,
        Talk::Snapshot => 2,
        Talk::SnapshotPack { .. } => 1,
        Talk::Snapshots => 1,
        Talk::RestoreChoose => 1,
        Talk::Restore { .. } => 1,
        Talk::UpgradeCheck => 2,
        Talk::UpgradeNewest { .. } => 1,
        Talk::Upgrade => 2,
        Talk::UpgradePack { .. } => 1,
        Talk::Done { .. } => 0,
    }
}

/// **Every conversation ends.** Each answer leaves fewer steps, whatever it is.
pub proof fn law_conversation_ends(t: Talk, got: Got, r: Talk)
    requires
        work::fits(t.wants(), got),
        talk::after(t, got, r),
    ensures
        steps_left(r) < steps_left(t),
        steps_left(t) == 0 <==> t.wants() is None,
{
}

proof fn lemma_prefixes()
    ensures
        CONFIG_PREFIX@ =~= seq!['c', 'o', 'n', 'f', 'i', 'g', ':'],
        URL_PREFIX@ =~= seq!['u', 'r', 'l', ':'],
        QR_PREFIX@ =~= seq!['q', 'r', ':'],
        DELETE_PREFIX@ =~= seq!['d', 'e', 'l', 'e', 't', 'e', ':'],
        DELETE_CONFIRM_PREFIX@ =~= seq![
            'd',
            'e',
            'l',
            'e',
            't',
            'e',
            '_',
            'c',
            'o',
            'n',
            'f',
            'i',
            'r',
            'm',
            ':',
        ],
        DELETE_CANCEL_PREFIX@ =~= seq![
            'd',
            'e',
            'l',
            'e',
            't',
            'e',
            '_',
            'c',
            'a',
            'n',
            'c',
            'e',
            'l',
            ':',
        ],
        RESTORE_PREFIX@ =~= seq!['r', 'e', 's', 't', 'o', 'r', 'e', ':'],
{
    reveal_strlit("config:");
    reveal_strlit("url:");
    reveal_strlit("qr:");
    reveal_strlit("delete:");
    reveal_strlit("delete_confirm:");
    reveal_strlit("delete_cancel:");
    reveal_strlit("restore:");
}

proof fn lemma_own_prefix(p: Seq<char>, x: Seq<char>)
    ensures
        text::after_prefix(p + x, p) == Some(x),
{
    assert((p + x).skip(p.len() as int) =~= x);
    assert((p + x).subrange(p.len() as int, (p + x).len() as int) =~= x);
    assert((p + x).take(p.len() as int) =~= p);
}

proof fn lemma_other_prefix(p: Seq<char>, q: Seq<char>, x: Seq<char>, i: int)
    requires
        0 <= i < p.len(),
        i < q.len(),
        p[i] != q[i],
    ensures
        text::after_prefix(p + x, q) is None,
{
    assert((p + x)[i] == p[i]);
}

/// **A button does what it says.** The data that a button for a user, an id or a snapshot sends is
/// read as that user, that id or that snapshot, and as nothing else.
pub proof fn law_buttons_are_understood(config: Config, x: Seq<char>, o: Opening)
    ensures
        talk::begins_at(config, CONFIG_PREFIX@ + x, o) ==> (o.talk matches Talk::Config {
            name,
            place,
        } && name@ == x && place == Place::Button),
        talk::begins_at(config, URL_PREFIX@ + x, o) ==> (o.talk matches Talk::Config {
            name,
            place,
        } && name@ == x && place == Place::Button),
        talk::begins_at(config, QR_PREFIX@ + x, o) ==> (o.talk matches Talk::Qr { name, place }
            && name@ == x && place == Place::Button),
        talk::begins_at(config, DELETE_PREFIX@ + x, o) ==> (o.talk matches Talk::Prompt {
            name,
            place,
        } && name@ == x && place == Place::Button),
        talk::begins_at(config, DELETE_CONFIRM_PREFIX@ + x, o) ==> (o.talk matches Talk::Delete {
            uuid,
            ..
        } && uuid@ == x),
        talk::begins_at(config, DELETE_CANCEL_PREFIX@ + x, o) ==> o.talk.wants() is None,
        talk::begins_at(config, RESTORE_PREFIX@ + x, o) ==> (o.talk matches Talk::Restore { tag }
            && tag@ == x),
{
    lemma_prefixes();
    lemma_own_prefix(CONFIG_PREFIX@, x);
    lemma_own_prefix(URL_PREFIX@, x);
    lemma_own_prefix(QR_PREFIX@, x);
    lemma_own_prefix(DELETE_PREFIX@, x);
    lemma_own_prefix(DELETE_CONFIRM_PREFIX@, x);
    lemma_own_prefix(DELETE_CANCEL_PREFIX@, x);
    lemma_own_prefix(RESTORE_PREFIX@, x);
    lemma_other_prefix(URL_PREFIX@, CONFIG_PREFIX@, x, 0);
    lemma_other_prefix(QR_PREFIX@, CONFIG_PREFIX@, x, 0);
    lemma_other_prefix(QR_PREFIX@, URL_PREFIX@, x, 0);
    lemma_other_prefix(DELETE_PREFIX@, CONFIG_PREFIX@, x, 0);
    lemma_other_prefix(DELETE_PREFIX@, URL_PREFIX@, x, 0);
    lemma_other_prefix(DELETE_PREFIX@, QR_PREFIX@, x, 0);
    lemma_other_prefix(DELETE_CONFIRM_PREFIX@, CONFIG_PREFIX@, x, 0);
    lemma_other_prefix(DELETE_CONFIRM_PREFIX@, URL_PREFIX@, x, 0);
    lemma_other_prefix(DELETE_CONFIRM_PREFIX@, QR_PREFIX@, x, 0);
    lemma_other_prefix(DELETE_CONFIRM_PREFIX@, DELETE_PREFIX@, x, 6);
    lemma_other_prefix(DELETE_CANCEL_PREFIX@, CONFIG_PREFIX@, x, 0);
    lemma_other_prefix(DELETE_CANCEL_PREFIX@, URL_PREFIX@, x, 0);
    lemma_other_prefix(DELETE_CANCEL_PREFIX@, QR_PREFIX@, x, 0);
    lemma_other_prefix(DELETE_CANCEL_PREFIX@, DELETE_PREFIX@, x, 6);
    lemma_other_prefix(DELETE_CANCEL_PREFIX@, DELETE_CONFIRM_PREFIX@, x, 8);
    lemma_other_prefix(RESTORE_PREFIX@, CONFIG_PREFIX@, x, 0);
    lemma_other_prefix(RESTORE_PREFIX@, URL_PREFIX@, x, 0);
    lemma_other_prefix(RESTORE_PREFIX@, QR_PREFIX@, x, 0);
    lemma_other_prefix(RESTORE_PREFIX@, DELETE_PREFIX@, x, 0);
    lemma_other_prefix(RESTORE_PREFIX@, DELETE_CONFIRM_PREFIX@, x, 0);
    lemma_other_prefix(RESTORE_PREFIX@, DELETE_CANCEL_PREFIX@, x, 0);
}

/// The press of a button that restores a snapshot is answered, and what is done is told in its place.
pub proof fn lemma_restore_announced(config: Config, x: Seq<char>, o: Opening)
    requires
        talk::begins_at(config, RESTORE_PREFIX@ + x, o),
    ensures
        talk::act_views(o.acts@) == seq![
            ActV::Answer(None),
            ActV::Edit(talk::plain("Restoring from snapshot ["@ + x + "]..."@)),
        ],
{
    lemma_prefixes();
    lemma_own_prefix(RESTORE_PREFIX@, x);
    lemma_other_prefix(RESTORE_PREFIX@, CONFIG_PREFIX@, x, 0);
    lemma_other_prefix(RESTORE_PREFIX@, URL_PREFIX@, x, 0);
    lemma_other_prefix(RESTORE_PREFIX@, QR_PREFIX@, x, 0);
    lemma_other_prefix(RESTORE_PREFIX@, DELETE_PREFIX@, x, 0);
    lemma_other_prefix(RESTORE_PREFIX@, DELETE_CONFIRM_PREFIX@, x, 0);
    lemma_other_prefix(RESTORE_PREFIX@, DELETE_CANCEL_PREFIX@, x, 0);
}

} // verus!
