//! Laws on what the bot asks for and what it says.

use crate::bridge_client::parse_bridge_stats;
use crate::config::Config;
use crate::decimal;
use crate::error::AppError;
use crate::telegram::keyboards;
use crate::telegram::keyboards::{
    build_user_keyboard, format_empty_keyboard_message, format_selection_message, ButtonV, Keyboard,
    UserKeyboardResult,
};
use crate::telegram::laws;
use crate::telegram::talk;
use crate::telegram::talk::{
    document_failure, handle_callback, handle_command, is_admin, public_commands, Act, ActV,
    BotCommand, Choice, Command, NoteV, Opening, Place, Talk,
};
use crate::telegram::texts;
use crate::telegram::texts::{
    format_status_message, format_users_message, format_users_message_with_bridge,
    validate_user_name,
};
use crate::text;
use crate::work;
use crate::work::{sum_of, Got, Need, SnapshotInfo, UpgradeResult};
use crate::xray::client::ServerInfo;
use crate::xray::table;
use crate::xray::types::{TrafficStats, XrayUser};
use vstd::prelude::*;

verus! {

// ---- what is said ----

/// The conversation ends with one message into the chat.
pub open spec fn tells(t: Talk, said: Seq<char>) -> bool {
    t matches Talk::Done { acts } && acts@.len() == 1 && (acts@[0] matches Act::Send(n) && n.text@
        == said && n.keyboard is None)
}

/// The conversation ends with one message, in the place where it is expected.
pub open spec fn tells_at(t: Talk, place: Place, said: Seq<char>) -> bool {
    match place {
        Place::Chat => tells(t, said),
        Place::Button => t matches Talk::Done { acts } && acts@.len() == 2 && acts@[0]
            == Act::Answer(Option::<String>::None) && (acts@[1] matches Act::Edit(n) && n.text@
            == said && n.keyboard is None),
    }
}

proof fn lemma_tells(t: Talk, n: NoteV)
    requires
        talk::ends(t, seq![ActV::Send(n)]),
    ensures
        t matches Talk::Done { acts } && acts@.len() == 1 && (acts@[0] matches Act::Send(x) && x@
            == n),
{
    let a = t->acts@;
    assert(talk::act_views(a).len() == 1);
    assert(talk::act_views(a)[0] == a[0]@);
}

proof fn lemma_tells_at(t: Talk, place: Place, n: NoteV)
    requires
        talk::ends(t, talk::placed(place, n)),
    ensures
        match place {
            Place::Chat => t matches Talk::Done { acts } && acts@.len() == 1 && (acts@[0]
                matches Act::Send(x) && x@ == n),
            Place::Button => t matches Talk::Done { acts } && acts@.len() == 2 && acts@[0]
                == Act::Answer(Option::<String>::None) && (acts@[1] matches Act::Edit(x) && x@
                == n),
        },
{
    let a = t->acts@;
    assert(talk::act_views(a).len() == a.len());
    assert(talk::act_views(a)[0] == a[0]@);
    if place == Place::Button {
        assert(talk::act_views(a)[1] == a[1]@);
    }
}

// ---- whom it is about ----

/// The first of the users that has the name.
pub open spec fn is_named(users: Seq<XrayUser>, name: Seq<char>, i: int) -> bool {
    0 <= i < users.len() && users[i].name@ == name && forall|j: int|
        0 <= j < i ==> (#[trigger] users[j]).name@ != name
}

/// None of the users has the name.
pub open spec fn is_unknown(users: Seq<XrayUser>, name: Seq<char>) -> bool {
    forall|j: int| 0 <= j < users.len() ==> (#[trigger] users[j]).name@ != name
}

proof fn lemma_named(users: Seq<XrayUser>, name: Seq<char>, i: int)
    requires
        is_named(users, name, i),
    ensures
        work::named(table::user_views(users), name) == Some(users[i]@),
{
    let all = table::user_views(users);
    work::lemma_named_at(all, name, 0);
    assert(all[i] == users[i]@);
    let k = work::named_at(all, name, 0)->0;
    if k < i {
        assert(users[k].name@ == all[k].name);
    }
}

proof fn lemma_unknown(users: Seq<XrayUser>, name: Seq<char>)
    requires
        is_unknown(users, name),
    ensures
        work::named(table::user_views(users), name) is None,
{
    let all = table::user_views(users);
    work::lemma_named_at(all, name, 0);
    if let Some(k) = work::named_at(all, name, 0) {
        assert(users[k].name@ == all[k].name);
    }
}

/// **URLs and QR codes are those of the user that was asked for.** With the list of users, the URL
/// over the bridge is asked for with the id of the user of that very name; with that URL the direct
/// one is asked for with the same id.
pub proof fn law_urls_are_asked_for_by_id(
    name: String,
    place: Place,
    users: Vec<XrayUser>,
    i: int,
    url: String,
    c1: Talk,
    c2: Talk,
    q1: Talk,
    q2: Talk,
    n1: Option<Need>,
    n2: Option<Need>,
    m1: Option<Need>,
    m2: Option<Need>,
)
    requires
        is_named(users@, name@, i),
        call_ensures(Talk::next, (Talk::Config { name, place }, Got::Users(users)), c1),
        call_ensures(Talk::next, (c1, Got::Text(url)), c2),
        call_ensures(Talk::need, (&c1,), n1),
        call_ensures(Talk::need, (&c2,), n2),
        call_ensures(Talk::next, (Talk::Qr { name, place }, Got::Users(users)), q1),
        call_ensures(Talk::next, (q1, Got::Text(url)), q2),
        call_ensures(Talk::need, (&q1,), m1),
        call_ensures(Talk::need, (&q2,), m2),
    ensures
        n1 matches Some(Need::BridgeUrl(id)) && id@ == users@[i].uuid@,
        n2 matches Some(Need::DirectUrl(id)) && id@ == users@[i].uuid@,
        m1 matches Some(Need::BridgeUrl(id)) && id@ == users@[i].uuid@,
        m2 matches Some(Need::DirectUrl(id)) && id@ == users@[i].uuid@,
{
    lemma_named(users@, name@, i);
}

/// **Nobody is taken for a user that is not there.** Where no user has the name, that is told, and
/// nothing is asked for.
pub proof fn law_unknown_users_are_told(
    name: String,
    place: Place,
    users: Vec<XrayUser>,
    c: Talk,
    q: Talk,
    p: Talk,
)
    requires
        is_unknown(users@, name@),
        call_ensures(Talk::next, (Talk::Config { name, place }, Got::Users(users)), c),
        call_ensures(Talk::next, (Talk::Qr { name, place }, Got::Users(users)), q),
        call_ensures(
            Talk::next,
            (Talk::Prompt { name, place: Place::Chat }, Got::Users(users)),
            p,
        ),
    ensures
        tells_at(c, place, "Error: "@ + ("user '"@ + name@ + "' not found"@)),
        tells(q, "Error: "@ + ("user '"@ + name@ + "' not found"@)),
        tells(p, "Error: "@ + ("user '"@ + name@ + "' not found"@)),
{
    lemma_unknown(users@, name@);
    let said = "Error: "@ + ("user '"@ + name@ + "' not found"@);
    lemma_tells_at(c, place, talk::html(said));
    lemma_tells(q, talk::plain(said));
    lemma_tells(p, talk::plain(said));
}

/// **A user is deleted by the id that the button carries**: the question shows the name, its buttons
/// carry the id of the user of that very name, and that id is what is removed.
pub proof fn law_deletion_is_of_the_user_asked_for(
    name: String,
    users: Vec<XrayUser>,
    i: int,
    p: Talk,
)
    requires
        is_named(users@, name@, i),
        call_ensures(
            Talk::next,
            (Talk::Prompt { name, place: Place::Chat }, Got::Users(users)),
            p,
        ),
    ensures
        p matches Talk::Done { acts } && acts@.len() == 1 && (acts@[0] matches Act::Send(n)
            && n.text@ == "⚠️ Delete user '"@ + name@
            + "'?\n\nThis will revoke their access immediately."@ && (n.keyboard matches Some(k)
            && k.inline_keyboard@.len() == 1 && k.inline_keyboard@[0]@.len() == 2
            && k.inline_keyboard@[0]@[0].data@ == "delete_confirm:"@ + users@[i].uuid@
            && k.inline_keyboard@[0]@[0].text@ == "Yes, delete"@
            && k.inline_keyboard@[0]@[1].data@ == "delete_cancel:"@ + users@[i].uuid@
            && k.inline_keyboard@[0]@[1].text@ == "Cancel"@)),
{
    lemma_named(users@, name@, i);
    let n = talk::with_buttons(
        "⚠️ Delete user '"@ + name@ + "'?\n\nThis will revoke their access immediately."@,
        keyboards::delete_buttons(users@[i].uuid@),
    );
    lemma_tells(p, n);
    let k = p->acts@[0]->Send_0.keyboard->0;
    lemma_pair(k, n.keyboard->0);
}

proof fn lemma_pair(k: Keyboard, v: Seq<Seq<ButtonV>>)
    requires
        k@ == v,
        v.len() == 1,
        v[0].len() == 2,
    ensures
        k.inline_keyboard@.len() == 1,
        k.inline_keyboard@[0]@.len() == 2,
        k.inline_keyboard@[0]@[0]@ == v[0][0],
        k.inline_keyboard@[0]@[1]@ == v[0][1],
{
    assert(k@[0] == keyboards::row_of(k.inline_keyboard@[0]@));
    assert(v[0][0] == k.inline_keyboard@[0]@[0]@);
    assert(v[0][1] == k.inline_keyboard@[0]@[1]@);
}

/// **A deletion goes on with the user that the id belongs to**: the id is removed on the server, and
/// then the email of that very user on the bridge, where there is one; its name is told.
pub proof fn law_deletion_follows_the_id(
    bridge: bool,
    uuid: String,
    users: Vec<XrayUser>,
    i: int,
    a: Talk,
    b: Talk,
    c: Talk,
    n: Option<Need>,
    m: Option<Need>,
    got: Got,
)
    requires
        0 <= i < users@.len(),
        users@[i].uuid@ == uuid@,
        forall|j: int| 0 <= j < i ==> (#[trigger] users@[j]).uuid@ != uuid@,
        call_ensures(Talk::next, (Talk::Delete { bridge, uuid }, Got::Users(users)), a),
        call_ensures(Talk::need, (&a,), n),
        call_ensures(Talk::next, (a, Got::Done), b),
        call_ensures(Talk::need, (&b,), m),
        bridge ==> call_ensures(Talk::next, (b, got), c),
        !bridge ==> c == b,
    ensures
        n matches Some(Need::RemoveUser(id)) && id@ == uuid@,
        bridge ==> (m matches Some(Need::Unregister(email)) && email@ == users@[i].email@),
        !bridge ==> m is None,
        tells_at(c, Place::Button, "🗑 User '"@ + users@[i].name@ + "' deleted."@),
{
    let all = table::user_views(users@);
    work::lemma_id_at(all, uuid@, 0);
    assert(all[i] == users@[i]@);
    let k = work::id_at(all, uuid@, 0)->0;
    if k < i {
        assert(users@[k].uuid@ == all[k].uuid);
    }
    assert(k == i);
    lemma_tells_at(
        c,
        Place::Button,
        talk::plain("🗑 User '"@ + users@[i].name@ + "' deleted."@),
    );
}

/// **A new user is the one that was named, everywhere.** It is added under the name; both URLs are
/// asked for with the id that it got; where there is a bridge, it is registered there with that id
/// and the email of the name; and what is told holds the name, the id and both URLs.
pub proof fn law_new_user_is_the_one_named(
    bridge: bool,
    name: String,
    uuid: String,
    bridge_url: String,
    direct_url: String,
    got: Got,
    a: Talk,
    b: Talk,
    c: Talk,
    d: Talk,
    n0: Option<Need>,
    n1: Option<Need>,
    n2: Option<Need>,
    n3: Option<Need>,
)
    requires
        call_ensures(Talk::need, (&Talk::Add { bridge, name },), n0),
        call_ensures(Talk::next, (Talk::Add { bridge, name }, Got::Text(uuid)), a),
        call_ensures(Talk::need, (&a,), n1),
        call_ensures(Talk::next, (a, Got::Text(bridge_url)), b),
        call_ensures(Talk::need, (&b,), n2),
        call_ensures(Talk::next, (b, Got::Text(direct_url)), c),
        call_ensures(Talk::need, (&c,), n3),
        bridge ==> call_ensures(Talk::next, (c, got), d),
        !bridge ==> d == c,
    ensures
        n0 matches Some(Need::AddUser(s)) && s@ == name@,
        n1 matches Some(Need::BridgeUrl(id)) && id@ == uuid@,
        n2 matches Some(Need::DirectUrl(id)) && id@ == uuid@,
        bridge ==> (n3 matches Some(Need::Register { uuid: id, email }) && id@ == uuid@ && email@
            == name@ + "@vpn"@),
        !bridge ==> n3 is None,
        tells(
            d,
            "✅ User '"@ + name@ + "' added.\n\nUUID: "@ + uuid@ + "\n\n"@
                + ("🏠 Для России:\n<pre>"@ + bridge_url@
                + "</pre>\n\n✈️ Из-за рубежа:\n<pre>"@ + direct_url@ + "</pre>"@),
        ),
{
    lemma_tells(
        d,
        talk::html(
            "✅ User '"@ + name@ + "' added.\n\nUUID: "@ + uuid@ + "\n\n"@
                + ("🏠 Для России:\n<pre>"@ + bridge_url@
                + "</pre>\n\n✈️ Из-за рубежа:\n<pre>"@ + direct_url@ + "</pre>"@),
        ),
    );
}

/// **Both URLs of a user are shown, each where it belongs**, and to be copied.
pub proof fn law_urls_are_shown(
    uuid: String,
    place: Place,
    bridge_url: String,
    direct_url: String,
    a: Talk,
    b: Talk,
)
    requires
        call_ensures(
            Talk::next,
            (Talk::ConfigBridgeUrl { uuid, place }, Got::Text(bridge_url)),
            a,
        ),
        call_ensures(Talk::next, (a, Got::Text(direct_url)), b),
    ensures
        tells_at(
            b,
            place,
            "🏠 Для России:\n<pre>"@ + bridge_url@ + "</pre>\n\n✈️ Из-за рубежа:\n<pre>"@
                + direct_url@ + "</pre>"@,
        ),
{
    lemma_tells_at(
        b,
        place,
        talk::html(
            "🏠 Для России:\n<pre>"@ + bridge_url@ + "</pre>\n\n✈️ Из-за рубежа:\n<pre>"@
                + direct_url@ + "</pre>"@,
        ),
    );
}

/// **Each picture is of its own URL.** The URL over the bridge is drawn first and then the direct one,
/// and each picture is sent under its caption, which holds the name.
pub proof fn law_pictures_are_of_their_urls(
    name: String,
    uuid: String,
    place: Place,
    bridge_url: String,
    direct_url: String,
    bridge_png: Vec<u8>,
    direct_png: Vec<u8>,
    a: Talk,
    b: Talk,
    c: Talk,
    d: Talk,
    n: Option<Need>,
    m: Option<Need>,
)
    requires
        call_ensures(
            Talk::next,
            (Talk::QrBridgeUrl { name, uuid, place }, Got::Text(bridge_url)),
            a,
        ),
        call_ensures(Talk::next, (a, Got::Text(direct_url)), b),
        call_ensures(Talk::need, (&b,), n),
        call_ensures(Talk::next, (b, Got::Bytes(bridge_png)), c),
        call_ensures(Talk::need, (&c,), m),
        call_ensures(Talk::next, (c, Got::Bytes(direct_png)), d),
    ensures
        n matches Some(Need::Qr(s)) && s@ == bridge_url@,
        m matches Some(Need::Qr(s)) && s@ == direct_url@,
        d matches Talk::Done { acts } && acts@.len() == (if place == Place::Chat {
            2int
        } else {
            3int
        }) && (acts@[0] matches Act::Photo { png, caption } && png@ == bridge_png@ && caption@
            == "🏠 Bridge (censored regions) — "@ + name@) && (acts@[1] matches Act::Photo {
            png,
            caption,
        } && png@ == direct_png@ && caption@ == "🌍 Direct (abroad) — "@ + name@),
{
    let acts = d->acts@;
    assert(talk::act_views(acts).len() == acts.len());
    assert(talk::act_views(acts)[0] == acts[0]@);
    assert(talk::act_views(acts)[1] == acts[1]@);
}

/// **The users that are offered are those of the list, for what was asked.** The buttons are those of
/// the list with the word of the command; where there is none, it is said why.
pub proof fn law_users_are_offered(
    choice: Choice,
    users: Vec<XrayUser>,
    list: &[XrayUser],
    prefix: &str,
    hint: &str,
    question: &str,
    k: UserKeyboardResult,
    skipped: &[String],
    asked: String,
    none: String,
    a: Talk,
)
    requires
        list@ == users@,
        prefix@ == (match choice {
            Choice::Delete => "delete:"@,
            Choice::Config => "config:"@,
            Choice::Qr => "qr:"@,
        }),
        hint@ == (match choice {
            Choice::Delete => "/del <name>"@,
            Choice::Config => "/config <name>"@,
            Choice::Qr => "/qr <name>"@,
        }),
        question@ == (match choice {
            Choice::Delete => "Select a user to delete:"@,
            Choice::Config => "Select a user:"@,
            Choice::Qr => "Select a user:"@,
        }),
        call_ensures(build_user_keyboard, (list, prefix), k),
        skipped@ == k.skipped_names@,
        call_ensures(format_selection_message, (question, skipped, k.unnamed_count), asked),
        call_ensures(format_empty_keyboard_message, (hint, skipped, k.unnamed_count), none),
        call_ensures(Talk::next, (Talk::Choose { choice }, Got::Users(users)), a),
    ensures
        k.keyboard@.len() == 0 ==> tells(a, none@),
        k.keyboard@.len() > 0 ==> (a matches Talk::Done { acts } && acts@.len() == 1 && (acts@[0]
            matches Act::Send(n) && n.text@ == asked@ && (n.keyboard matches Some(x) && x@
            == k.keyboard@))),
{
    lemma_tells(a, talk::choice_note(choice, table::user_views(users@)));
}

// ---- what failed ----

/// **What went wrong is told** in the words of the error, and nothing more is asked for.
pub proof fn law_failures_are_told(t: Talk, e: AppError, r: Talk, n: Option<Need>)
    requires
        t is Users || t is Status || t is StatusUsers || t is Add || t is AddBridgeUrl
            || t is AddDirectUrl || t is Choose || t is Qr || t is QrBridgeUrl || t is QrDirectUrl
            || t is Snapshot || t is SnapshotPack || t is Snapshots || t is RestoreChoose
            || t is Restore || t is UpgradeCheck || t is UpgradeNewest || t is Upgrade,
        call_ensures(Talk::next, (t, Got::Failed(e)), r),
        call_ensures(Talk::need, (&r,), n),
    ensures
        n is None,
        tells(r, "Error: "@ + e.text()),
{
    if t is Add || t is AddBridgeUrl || t is AddDirectUrl {
        lemma_tells(r, talk::html("Error: "@ + e.text()));
    } else {
        lemma_tells(r, talk::plain("Error: "@ + e.text()));
    }
}

/// **What went wrong behind a button is told in its place.**
pub proof fn law_failures_of_buttons_are_told(t: Talk, e: AppError, r: Talk)
    requires
        t is Delete || t is DeleteRemove || (t matches Talk::Config { place, .. } && place
            == Place::Button) || (t matches Talk::ConfigBridgeUrl { place, .. } && place
            == Place::Button) || (t matches Talk::ConfigDirectUrl { place, .. } && place
            == Place::Button),
        call_ensures(Talk::next, (t, Got::Failed(e)), r),
    ensures
        tells_at(r, Place::Button, "Error: "@ + e.text()),
{
    if t is Delete || t is DeleteRemove {
        lemma_tells_at(r, Place::Button, talk::plain("Error: "@ + e.text()));
    } else {
        lemma_tells_at(r, Place::Button, talk::html("Error: "@ + e.text()));
    }
}

// ---- the list of users ----

/// **Figures are asked for by email, and each stays with its user.** The emails that are asked for are
/// those of the users, in order. A figure that could not be had counts as none.
pub proof fn law_figures_stay_with_their_users(
    bridge: bool,
    users: Vec<XrayUser>,
    x: Vec<(Option<TrafficStats>, Option<u32>)>,
    i: int,
    a: Talk,
    b: Talk,
    n: Option<Need>,
    rows: &[(XrayUser, TrafficStats, u32)],
    said: String,
)
    requires
        call_ensures(Talk::next, (Talk::Users { bridge }, Got::Users(users)), a),
        call_ensures(Talk::need, (&a,), n),
        call_ensures(Talk::next, (a, Got::Traffic(x)), b),
        x@.len() == users@.len(),
        0 <= i < users@.len(),
        call_ensures(format_users_message, (rows,), said),
        rows@.len() == users@.len(),
        forall|j: int|
            0 <= j < rows@.len() ==> (#[trigger] rows@[j]).0@ == users@[j]@ && rows@[j].1 == (
            match x@[j].0 {
                Some(t) => t,
                None => TrafficStats { uplink: 0, downlink: 0 },
            }) && rows@[j].2 == (match x@[j].1 {
                Some(c) => c,
                None => 0u32,
            }),
    ensures
        n matches Some(Need::Traffic(emails)) && emails@.len() == users@.len() && emails@[i]@
            == users@[i].email@,
        !bridge ==> tells(b, said@),
        bridge ==> (b matches Talk::UsersBridge { rows: v } && v@.len() == rows@.len() && v@[i].0@
            == rows@[i].0@ && v@[i].1 == rows@[i].1 && v@[i].2 == rows@[i].2),
{
    let all = table::user_views(users@);
    assert(all[i] == users@[i]@);
    let emails = n->0->Traffic_0;
    assert(text::texts(emails@).len() == emails@.len());
    assert(text::texts(emails@)[i] == emails@[i]@);
    let shown = texts::row_views(rows@);
    assert(shown =~= talk::with_traffic(all, x@)) by {
        assert forall|j: int| 0 <= j < shown.len() implies shown[j] == #[trigger] talk::with_traffic(
            all,
            x@,
        )[j] by {
            assert(all[j] == users@[j]@);
            assert(rows@[j].0@ == users@[j]@);
        }
    }
    if bridge {
        let v = b->UsersBridge_rows@;
        assert(texts::row_views(v).len() == v.len());
        assert(texts::row_views(v)[i] == texts::row_view(v[i]));
        assert(shown[i] == texts::row_view(rows@[i]));
    } else {
        lemma_tells(b, talk::plain(said@));
    }
}

/// **The counters of the bridge are those that it sent**; where it sent none, the list is that of the
/// server alone.
pub proof fn law_counters_of_the_bridge_are_shown(
    rows: Vec<(XrayUser, TrafficStats, u32)>,
    v: &[(XrayUser, TrafficStats, u32)],
    json: String,
    answer: &str,
    stats: Vec<(String, u64, u64)>,
    counted: &[(String, u64, u64)],
    a: Talk,
    b: Talk,
    alone: String,
    both: String,
)
    requires
        v@ == rows@,
        answer@ == json@,
        counted@ == stats@,
        call_ensures(parse_bridge_stats, (answer,), stats),
        call_ensures(format_users_message, (v,), alone),
        call_ensures(format_users_message_with_bridge, (v, counted), both),
        call_ensures(
            Talk::next,
            (Talk::UsersBridge { rows }, Got::Maybe(Option::<String>::None)),
            a,
        ),
        call_ensures(Talk::next, (Talk::UsersBridge { rows }, Got::Maybe(Some(json))), b),
    ensures
        tells(a, alone@),
        tells(b, both@),
{
    lemma_tells(a, talk::plain(alone@));
    lemma_tells(b, talk::plain(both@));
}

// ---- the state of the server ----

/// **The users that are counted are those of the list**, and those online are the sum of what was
/// counted for their emails.
pub proof fn law_users_are_counted(
    bridge: bool,
    info: ServerInfo,
    users: Vec<XrayUser>,
    c: Vec<Option<u32>>,
    i: int,
    a: Talk,
    b: Talk,
    n: Option<Need>,
    counts: &Vec<Option<u32>>,
    sum: usize,
)
    requires
        call_ensures(Talk::next, (Talk::StatusUsers { bridge, info }, Got::Users(users)), a),
        call_ensures(Talk::need, (&a,), n),
        call_ensures(Talk::next, (a, Got::Counts(c)), b),
        *counts == c,
        call_ensures(sum_of, (counts,), sum),
    ensures
        n matches Some(Need::Counts(emails)) && emails@.len() == users@.len() && (0 <= i
            < users@.len() ==> emails@[i]@ == users@[i].email@),
        b matches Talk::StatusUptime { bridge: d, info: f, users: u, online } && d == bridge && f
            == info && u == users@.len() && online == sum,
{
    let all = table::user_views(users@);
    let emails = n->0->Counts_0;
    assert(text::texts(emails@).len() == emails@.len());
    assert(text::texts(a->StatusOnline_emails@).len() == a->StatusOnline_emails@.len());
    assert(work::emails(all).len() == users@.len());
    if 0 <= i < users@.len() {
        assert(all[i] == users@[i]@);
        assert(text::texts(emails@)[i] == emails@[i]@);
    }
}

/// **The state that is told is what was found**, with the bridge, where there is one: an error there
/// means that it is not up.
pub proof fn law_state_is_told(
    info: ServerInfo,
    users: usize,
    online: usize,
    uptime: String,
    latest: Option<String>,
    time: &str,
    newest: Option<&str>,
    said: String,
    up: bool,
    e: AppError,
    a: Talk,
    b: Talk,
    c: Talk,
    d: Talk,
    n: Option<Need>,
)
    requires
        time@ == uptime@,
        (latest is Some) == (newest is Some),
        latest is Some ==> latest->0@ == newest->0@,
        call_ensures(format_status_message, (&info, users, online, time, newest), said),
        call_ensures(
            Talk::next,
            (
                Talk::StatusLatest { bridge: false, info, users, online, uptime },
                Got::Maybe(latest),
            ),
            a,
        ),
        call_ensures(
            Talk::next,
            (Talk::StatusLatest { bridge: true, info, users, online, uptime }, Got::Maybe(latest)),
            b,
        ),
        call_ensures(Talk::need, (&b,), n),
        call_ensures(Talk::next, (b, Got::Yes(up)), c),
        call_ensures(Talk::next, (b, Got::Failed(e)), d),
    ensures
        tells(a, said@),
        n == Some(Need::BridgeHealth),
        tells(
            c,
            said@ + "\n"@ + (if up {
                "Bridge: ✅ online"@
            } else {
                "Bridge: ❌ offline"@
            }),
        ),
        tells(d, said@ + "\n"@ + "Bridge: ❌ offline"@),
{
    assert(text::opt_text(latest) == texts::opt_str(newest));
    lemma_tells(a, talk::plain(said@));
    lemma_tells(
        c,
        talk::plain(
            said@ + "\n"@ + (if up {
                "Bridge: ✅ online"@
            } else {
                "Bridge: ❌ offline"@
            }),
        ),
    );
    lemma_tells(d, talk::plain(said@ + "\n"@ + "Bridge: ❌ offline"@));
}

/// **What the state is made of is asked for in turn**: the server, its users, how many of them are
/// online, how long it runs, and the newest version; nothing of it is lost on the way.
pub proof fn law_state_is_gathered(
    bridge: bool,
    info: ServerInfo,
    users: usize,
    online: usize,
    uptime: String,
    a: Talk,
    b: Talk,
    n0: Option<Need>,
    n1: Option<Need>,
    n2: Option<Need>,
    n3: Option<Need>,
)
    requires
        call_ensures(Talk::need, (&Talk::Status { bridge },), n0),
        call_ensures(Talk::next, (Talk::Status { bridge }, Got::Info(info)), a),
        call_ensures(Talk::need, (&a,), n1),
        call_ensures(Talk::need, (&Talk::StatusUptime { bridge, info, users, online },), n2),
        call_ensures(
            Talk::next,
            (Talk::StatusUptime { bridge, info, users, online }, Got::Text(uptime)),
            b,
        ),
        call_ensures(Talk::need, (&b,), n3),
    ensures
        n0 == Some(Need::ServerInfo),
        n1 == Some(Need::Users),
        n2 == Some(Need::Uptime),
        n3 == Some(Need::Latest),
        a == (Talk::StatusUsers { bridge, info }),
        b == (Talk::StatusLatest { bridge, info, users, online, uptime }),
{
}

// ---- snapshots and upgrades ----

/// **A snapshot that was made is sent**: the one with its tag is packed, and the file and its caption
/// name it with its version and its users.
pub proof fn law_snapshot_is_sent(
    info: SnapshotInfo,
    bytes: Vec<u8>,
    a: Talk,
    b: Talk,
    n: Option<Need>,
)
    requires
        call_ensures(Talk::next, (Talk::Snapshot, Got::Snapshot(info)), a),
        call_ensures(Talk::need, (&a,), n),
        call_ensures(Talk::next, (a, Got::Bytes(bytes)), b),
    ensures
        n matches Some(Need::Pack(tag)) && tag@ == info.tag@,
        b matches Talk::Done { acts } && acts@.len() == 1 && (acts@[0] matches Act::Document {
            bytes: sent,
            name,
            caption,
            told,
        } && told && sent@ == bytes@ && name@ == "snapshot-"@ + info.tag@ + ".tar.gz"@ && caption@
            == "\u{1f4e6} Snapshot "@ + info.tag@ + " | v"@ + info.version@ + " | "@
            + decimal::dec(info.users_count as nat) + " users"@),
{
    let acts = b->acts@;
    assert(talk::act_views(acts).len() == acts.len());
    assert(talk::act_views(acts)[0] == acts[0]@);
}

/// **Every snapshot is listed in a line of its own**, with its version and its users.
pub proof fn law_snapshots_are_told(v: Vec<SnapshotInfo>, i: int, a: Talk)
    requires
        call_ensures(Talk::next, (Talk::Snapshots, Got::Snapshots(v)), a),
    ensures
        v@.len() == 0 ==> tells(a, "No snapshots found."@),
        0 <= i < v@.len() ==> (a matches Talk::Done { acts } && acts@.len() == 1 && (acts@[0]
            matches Act::Send(n) && text::has_line(
            n.text@,
            "  "@ + v@[i].tag@ + " | v"@ + v@[i].version@ + " | "@ + decimal::dec(
                v@[i].users_count as nat,
            ) + " users"@,
        ))),
{
    lemma_tells(a, talk::plain(talk::snaps_text(v@)));
    if 0 <= i < v@.len() {
        let lines = seq!["\u{1f4cb} Snapshots:"@, Seq::empty()] + Seq::new(
            v@.len(),
            |j: int| talk::snap_line(v@[j]),
        );
        assert(lines[i + 2] == talk::snap_line(v@[i]));
        text::law_joined_lines_are_lines(lines, i + 2);
    }
}

/// **The newest snapshots are offered first**, five at most, and each button restores the one that it
/// shows.
pub proof fn law_newest_snapshots_are_offered(v: Vec<SnapshotInfo>, i: int, a: Talk)
    requires
        call_ensures(Talk::next, (Talk::RestoreChoose, Got::Snapshots(v)), a),
    ensures
        v@.len() == 0 ==> tells(a, "No snapshots found."@),
        v@.len() > 0 ==> (a matches Talk::Done { acts } && acts@.len() == 1 && (acts@[0]
            matches Act::Send(n) && n.text@ == "Select a snapshot to restore:"@ && (n.keyboard
            matches Some(k) && k.inline_keyboard@.len() == (if v@.len() < 5 {
            v@.len() as int
        } else {
            5int
        }) && (0 <= i < k.inline_keyboard@.len() ==> k.inline_keyboard@[i]@.len() == 1
            && k.inline_keyboard@[i]@[0].data@ == "restore:"@ + v@[v@.len() - 1 - i].tag@
            && k.inline_keyboard@[i]@[0].text@ == v@[v@.len() - 1 - i].tag@ + " | v"@ + v@[v@.len()
            - 1 - i].version@)))),
{
    if v@.len() == 0 {
        lemma_tells(a, talk::plain("No snapshots found."@));
    } else {
        let want = talk::snap_buttons(v@);
        lemma_tells(a, talk::with_buttons("Select a snapshot to restore:"@, want));
        let k = a->acts@[0]->Send_0.keyboard->0;
        assert(k@.len() == k.inline_keyboard@.len());
        if 0 <= i < k.inline_keyboard@.len() {
            let row = k.inline_keyboard@[i]@;
            assert(k@[i] == keyboards::row_of(row));
            assert(keyboards::row_of(row).len() == row.len());
            assert(keyboards::row_of(row)[0] == row[0]@);
        }
    }
}

/// **The snapshot that is restored is the one that was asked for**, and its tag is told.
pub proof fn law_restored_snapshot_is_the_one_asked_for(
    tag: String,
    a: Talk,
    n: Option<Need>,
)
    requires
        call_ensures(Talk::need, (&Talk::Restore { tag },), n),
        call_ensures(Talk::next, (Talk::Restore { tag }, Got::Done), a),
    ensures
        n matches Some(Need::Restore(t)) && t@ == tag@,
        tells(a, "\u{2705} Restored from snapshot ["@ + tag@ + "]. Container restarted."@),
{
    lemma_tells(
        a,
        talk::plain("\u{2705} Restored from snapshot ["@ + tag@ + "]. Container restarted."@),
    );
}

/// **An upgrade is offered only where the newest version is another one**, and the question names both
/// versions in order.
pub proof fn law_upgrade_is_offered_where_needed(
    info: ServerInfo,
    latest: String,
    a: Talk,
    b: Talk,
    n: Option<Need>,
)
    requires
        call_ensures(Talk::next, (Talk::UpgradeCheck, Got::Info(info)), a),
        call_ensures(Talk::need, (&a,), n),
        call_ensures(Talk::next, (a, Got::Text(latest)), b),
    ensures
        n == Some(Need::Newest),
        latest@ == info.version@ ==> tells(
            b,
            "\u{2705} Already on latest version v"@ + latest@ + ". Nothing to do."@,
        ),
        latest@ != info.version@ ==> (b matches Talk::Done { acts } && acts@.len() == 1 && (acts@[0]
            matches Act::Send(m) && m.text@ == "\u{26a0}\u{fe0f} Upgrade Xray v"@ + info.version@
            + " \u{2192} v"@ + latest@
            + "?\n\nThis will restart the container and briefly drop all VPN connections.\nA snapshot will be created automatically before upgrading."@
            && (m.keyboard matches Some(k) && k.inline_keyboard@.len() == 1
            && k.inline_keyboard@[0]@.len() == 2 && k.inline_keyboard@[0]@[0].data@
            == "upgrade_confirm"@ && k.inline_keyboard@[0]@[0].text@ == "Yes, upgrade"@
            && k.inline_keyboard@[0]@[1].data@ == "upgrade_cancel"@
            && k.inline_keyboard@[0]@[1].text@ == "Cancel"@))),
{
    if latest@ == info.version@ {
        lemma_tells(
            b,
            talk::unneeded(
                talk::plain(
                    "\u{2705} Already on latest version v"@ + latest@ + ". Nothing to do."@,
                ),
            ),
        );
    } else {
        let want = talk::unneeded(
            talk::with_buttons(
                "\u{26a0}\u{fe0f} Upgrade Xray v"@ + info.version@ + " \u{2192} v"@ + latest@
                    + "?\n\nThis will restart the container and briefly drop all VPN connections.\nA snapshot will be created automatically before upgrading."@,
                keyboards::upgrade_buttons(),
            ),
        );
        lemma_tells(b, want);
        lemma_pair(b->acts@[0]->Send_0.keyboard->0, want.keyboard->0);
    }
}

/// **An upgrade is told with both versions and its snapshot**, and the snapshot made before it is sent;
/// where that cannot be packed, the upgrade is told all the same.
pub proof fn law_upgrade_is_told(
    result: UpgradeResult,
    bytes: Vec<u8>,
    e: AppError,
    a: Talk,
    b: Talk,
    c: Talk,
    n: Option<Need>,
    m: Option<Need>,
)
    requires
        call_ensures(Talk::need, (&Talk::Upgrade,), m),
        call_ensures(Talk::next, (Talk::Upgrade, Got::Upgraded(result)), a),
        call_ensures(Talk::need, (&a,), n),
        call_ensures(Talk::next, (a, Got::Bytes(bytes)), b),
        call_ensures(Talk::next, (a, Got::Failed(e)), c),
    ensures
        m == Some(Need::Upgrade),
        n matches Some(Need::Pack(tag)) && tag@ == result.snapshot_tag@,
        b matches Talk::Done { acts } && acts@.len() == 2 && (acts@[0] matches Act::Document {
            bytes: sent,
            name,
            caption,
            told,
        } && !told && sent@ == bytes@ && name@ == "pre-upgrade-"@ + result.snapshot_tag@
            + ".tar.gz"@ && caption@ == "\u{1f4e6} Pre-upgrade backup (v"@ + result.old_version@
            + ")"@) && (acts@[1] matches Act::Send(x) && x.text@ == "\u{2705} Upgraded! v"@
            + result.old_version@ + " \u{2192} v"@ + result.new_version@ + "\nSnapshot: "@
            + result.snapshot_tag@),
        c matches Talk::Done { acts } && acts@.len() == 2 && (acts@[0] matches Act::Send(x)
            && x.text@ == "Warning: could not pack backup: "@ + e.text()) && (acts@[1]
            matches Act::Send(x) && x.text@ == "\u{2705} Upgraded! v"@ + result.old_version@
            + " \u{2192} v"@ + result.new_version@ + "\nSnapshot: "@ + result.snapshot_tag@),
{
    let p = b->acts@;
    assert(talk::act_views(p).len() == p.len());
    assert(talk::act_views(p)[0] == p[0]@);
    assert(talk::act_views(p)[1] == p[1]@);
    let q = c->acts@;
    assert(talk::act_views(q).len() == q.len());
    assert(talk::act_views(q)[0] == q[0]@);
    assert(talk::act_views(q)[1] == q[1]@);
}

// ---- how conversations begin ----

/// **Each command of the administrator begins its own conversation**: what is asked for first, with
/// what was written behind the command.
pub proof fn law_commands_ask_for_their_own(
    config: Config,
    me: i64,
    users: Opening,
    status: Opening,
    snapshot: Opening,
    snapshots: Opening,
    upgrade: Opening,
    n0: Option<Need>,
    n1: Option<Need>,
    n2: Option<Need>,
    n3: Option<Need>,
    n4: Option<Need>,
)
    requires
        config.telegram_admin_chat_id == Some(me),
        call_ensures(handle_command, (&config, me, Command::Users), users),
        call_ensures(handle_command, (&config, me, Command::Status), status),
        call_ensures(handle_command, (&config, me, Command::Snapshot), snapshot),
        call_ensures(handle_command, (&config, me, Command::Snapshots), snapshots),
        call_ensures(handle_command, (&config, me, Command::Upgrade), upgrade),
        call_ensures(Talk::need, (&users.talk,), n0),
        call_ensures(Talk::need, (&status.talk,), n1),
        call_ensures(Talk::need, (&snapshot.talk,), n2),
        call_ensures(Talk::need, (&snapshots.talk,), n3),
        call_ensures(Talk::need, (&upgrade.talk,), n4),
    ensures
        users.talk == (Talk::Users { bridge: config.bridge_agent_url is Some }),
        status.talk == (Talk::Status { bridge: config.bridge_agent_url is Some }),
        n0 == Some(Need::Users),
        n1 == Some(Need::ServerInfo),
        n2 == Some(Need::CreateSnapshot),
        n3 == Some(Need::Snapshots),
        n4 == Some(Need::ServerInfo),
        users.acts@.len() == 0 && status.acts@.len() == 0 && snapshots.acts@.len() == 0
            && upgrade.acts@.len() == 0,
        snapshot.acts@.len() == 1 && (snapshot.acts@[0] matches Act::Send(n) && n.text@
            == "Creating snapshot..."@ && n.keyboard is None),
{
    assert(talk::act_views(snapshot.acts@).len() == snapshot.acts@.len());
    if snapshot.acts@.len() == 1 {
        assert(talk::act_views(snapshot.acts@)[0] == snapshot.acts@[0]@);
    }
}

/// **A name behind a command is the one that is used**, without the blanks around it; without a name,
/// the users are offered to choose from.
pub proof fn law_names_behind_commands_are_used(
    config: Config,
    me: i64,
    name: String,
    add: Opening,
    del: Opening,
    show: Opening,
    qr: Opening,
    restore: Opening,
    written: &str,
    problem: Option<String>,
)
    requires
        config.telegram_admin_chat_id == Some(me),
        call_ensures(handle_command, (&config, me, Command::Add(name)), add),
        call_ensures(handle_command, (&config, me, Command::Del(name)), del),
        call_ensures(handle_command, (&config, me, Command::Config(name)), show),
        call_ensures(handle_command, (&config, me, Command::Qr(name)), qr),
        call_ensures(handle_command, (&config, me, Command::Restore(name)), restore),
        written@ == name@,
        call_ensures(validate_user_name, (written,), problem),
    ensures
        problem is None ==> (add.talk matches Talk::Add { bridge, name: n } && bridge == (
        config.bridge_agent_url is Some) && n@ == text::trimmed(name@)),
        problem matches Some(m) ==> tells(add.talk, m@),
        text::trimmed(name@).len() > 0 ==> {
            &&& del.talk matches Talk::Prompt { name: n, place } && n@ == text::trimmed(name@)
                && place == Place::Chat
            &&& show.talk matches Talk::Config { name: n, place } && n@ == text::trimmed(name@)
                && place == Place::Chat
            &&& qr.talk matches Talk::Qr { name: n, place } && n@ == text::trimmed(name@) && place
                == Place::Chat
            &&& restore.talk matches Talk::Restore { tag } && tag@ == text::trimmed(name@)
        },
        text::trimmed(name@).len() == 0 ==> {
            &&& del.talk == (Talk::Choose { choice: Choice::Delete })
            &&& show.talk == (Talk::Choose { choice: Choice::Config })
            &&& qr.talk == (Talk::Choose { choice: Choice::Qr })
            &&& restore.talk == Talk::RestoreChoose
        },
{
    text::law_trimming_is_idempotent(name@);
    if let Some(m) = problem {
        lemma_tells(add.talk, talk::plain(m@));
    }
}

/// **A button does what its data says**, for the user, the id or the snapshot behind the word, whatever
/// that is.
pub proof fn law_buttons_say_what_they_do(
    config: Config,
    me: i64,
    x: Seq<char>,
    data: &str,
    o: Opening,
    n: Option<Need>,
)
    requires
        config.telegram_admin_chat_id == Some(me),
        call_ensures(handle_callback, (&config, me, data), o),
        call_ensures(Talk::need, (&o.talk,), n),
    ensures
        data@ == "config:"@ + x ==> (o.talk matches Talk::Config { name, place } && name@ == x
            && place == Place::Button),
        data@ == "url:"@ + x ==> (o.talk matches Talk::Config { name, place } && name@ == x && place
            == Place::Button),
        data@ == "qr:"@ + x ==> (o.talk matches Talk::Qr { name, place } && name@ == x && place
            == Place::Button),
        data@ == "delete:"@ + x ==> (o.talk matches Talk::Prompt { name, place } && name@ == x
            && place == Place::Button),
        data@ == "delete_confirm:"@ + x ==> (o.talk matches Talk::Delete { bridge, uuid } && uuid@
            == x && bridge == (config.bridge_agent_url is Some)),
        data@ == "delete_cancel:"@ + x ==> n is None,
        data@ == "restore:"@ + x ==> (n matches Some(Need::Restore(tag)) && tag@ == x),
{
    assert(talk::begins_at(config, data@, o));
    lemma_buttons(config, x, data@, o);
}

proof fn lemma_buttons(config: Config, x: Seq<char>, data: Seq<char>, o: Opening)
    requires
        talk::begins_at(config, data, o),
    ensures
        data == "config:"@ + x ==> (o.talk matches Talk::Config { name, place } && name@ == x
            && place == Place::Button),
        data == "url:"@ + x ==> (o.talk matches Talk::Config { name, place } && name@ == x && place
            == Place::Button),
        data == "qr:"@ + x ==> (o.talk matches Talk::Qr { name, place } && name@ == x && place
            == Place::Button),
        data == "delete:"@ + x ==> (o.talk matches Talk::Prompt { name, place } && name@ == x
            && place == Place::Button),
        data == "delete_confirm:"@ + x ==> (o.talk matches Talk::Delete { bridge, uuid } && uuid@
            == x && bridge == (config.bridge_agent_url is Some)),
        data == "delete_cancel:"@ + x ==> o.talk.wants() is None,
        data == "restore:"@ + x ==> (o.talk matches Talk::Restore { tag } && tag@ == x),
{
    laws::law_buttons_are_understood(config, x, o);
}

/// **The buttons of an upgrade upgrade and cancel**, each for its own.
pub proof fn law_upgrade_buttons_say_what_they_do(
    config: Config,
    me: i64,
    yes: &str,
    no: &str,
    a: Opening,
    b: Opening,
    n: Option<Need>,
    m: Option<Need>,
)
    requires
        config.telegram_admin_chat_id == Some(me),
        yes@ == "upgrade_confirm"@,
        no@ == "upgrade_cancel"@,
        call_ensures(handle_callback, (&config, me, yes), a),
        call_ensures(handle_callback, (&config, me, no), b),
        call_ensures(Talk::need, (&a.talk,), n),
        call_ensures(Talk::need, (&b.talk,), m),
    ensures
        n == Some(Need::Upgrade),
        m is None,
        a.acts@.len() == 3 && a.acts@[0] == Act::Answer(Option::<String>::None) && (a.acts@[1]
            matches Act::Edit(x) && x.text@ == "\u{23f3} Upgrading..."@) && (a.acts@[2]
            matches Act::Send(x) && x.text@ == "\u{23f3} Upgrading..."@),
        b.acts@.len() == 0 && (b.talk matches Talk::Done { acts } && acts@.len() == 2 && (acts@[1]
            matches Act::Edit(x) && x.text@ == "Upgrade cancelled."@)),
{
    assert(talk::begins_at(config, yes@, a));
    assert(talk::begins_at(config, no@, b));
    assert(talk::act_views(a.acts@).len() == a.acts@.len());
    if a.acts@.len() == 3 {
        assert(talk::act_views(a.acts@)[0] == a.acts@[0]@);
        assert(talk::act_views(a.acts@)[1] == a.acts@[1]@);
        assert(talk::act_views(a.acts@)[2] == a.acts@[2]@);
    }
    if let Talk::Done { acts } = b.talk {
        assert(talk::act_views(acts@).len() == acts@.len());
        if acts@.len() == 2 {
            assert(talk::act_views(acts@)[1] == acts@[1]@);
        }
    }
    lemma_upgrade_words();
    let w = "upgrade_confirm"@;
    assert(text::after_prefix(w, "config:"@) is None && text::after_prefix(w, "url:"@) is None
        && text::after_prefix(w, "qr:"@) is None && text::after_prefix(w, "delete:"@) is None
        && text::after_prefix(w, "delete_confirm:"@) is None && text::after_prefix(
        w,
        "delete_cancel:"@,
    ) is None && text::after_prefix(w, "restore:"@) is None);
}

proof fn lemma_upgrade_words()
    ensures
        forall|q: Seq<char>|
            #![trigger text::after_prefix("upgrade_confirm"@, q)]
            q.len() > 0 && q.last() == ':' ==> text::after_prefix("upgrade_confirm"@, q) is None
                && text::after_prefix("upgrade_cancel"@, q) is None,
        "upgrade_confirm"@ != "upgrade_cancel"@,
        "config:"@.len() > 0 && "config:"@.last() == ':',
        "url:"@.len() > 0 && "url:"@.last() == ':',
        "qr:"@.len() > 0 && "qr:"@.last() == ':',
        "delete:"@.len() > 0 && "delete:"@.last() == ':',
        "delete_confirm:"@.len() > 0 && "delete_confirm:"@.last() == ':',
        "delete_cancel:"@.len() > 0 && "delete_cancel:"@.last() == ':',
        "restore:"@.len() > 0 && "restore:"@.last() == ':',
{
    reveal_strlit("upgrade_confirm");
    reveal_strlit("upgrade_cancel");
    reveal_strlit("config:");
    reveal_strlit("url:");
    reveal_strlit("qr:");
    reveal_strlit("delete:");
    reveal_strlit("delete_confirm:");
    reveal_strlit("delete_cancel:");
    reveal_strlit("restore:");
    assert forall|q: Seq<char>|
        #![trigger text::after_prefix("upgrade_confirm"@, q)]
        q.len() > 0 && q.last() == ':' implies text::after_prefix("upgrade_confirm"@, q) is None
        && text::after_prefix("upgrade_cancel"@, q) is None by {
        let c = "upgrade_confirm"@;
        let d = "upgrade_cancel"@;
        let k = q.len() - 1;
        if q.is_prefix_of(c) {
            assert(c[k] == ':');
        }
        if q.is_prefix_of(d) {
            assert(d[k] == ':');
        }
    }
}

/// **The administrator sees what everybody sees, and more**: what everybody sees comes first, and only
/// the administrator is one.
pub proof fn law_commands_that_are_seen(
    config: Config,
    who: i64,
    r: bool,
    everybody: Vec<BotCommand>,
    admin: Vec<BotCommand>,
    e: &str,
    failure: String,
)
    requires
        call_ensures(is_admin, (&config, who), r),
        call_ensures(public_commands, (), everybody),
        call_ensures(Command::bot_commands, (), admin),
        call_ensures(document_failure, (e,), failure),
    ensures
        r == (config.telegram_admin_chat_id == Some(who)),
        everybody@.len() == 2 && everybody@[0].command@ == "start"@ && everybody@[1].command@
            == "help"@,
        admin@.len() == 12 && admin@[0].command@ == "start"@ && admin@[1].command@ == "help"@
            && admin@[2].command@ == "users"@ && admin@[3].command@ == "status"@
            && admin@[4].command@ == "add"@ && admin@[5].command@ == "del"@ && admin@[6].command@
            == "config"@ && admin@[7].command@ == "qr"@ && admin@[8].command@ == "snapshot"@
            && admin@[9].command@ == "snapshots"@ && admin@[10].command@ == "restore"@
            && admin@[11].command@ == "upgrade"@,
        everybody@[0].description@ == "Welcome message"@ && everybody@[1].description@
            == "Show help"@,
        admin@[2].description@ == "List users with stats"@ && admin@[3].description@
            == "Server info"@ && admin@[4].description@ == "Add user: /add <name>"@
            && admin@[5].description@ == "Delete user: /del <name>"@ && admin@[6].description@
            == "Get config: /config <name>"@ && admin@[7].description@ == "Get QR code: /qr <name>"@
            && admin@[8].description@ == "Create snapshot"@ && admin@[9].description@
            == "List snapshots"@ && admin@[10].description@ == "Restore snapshot"@
            && admin@[11].description@ == "Upgrade Xray"@,
        failure@ == "Error: "@ + ("failed to send document: "@ + e@),
{
    let p = talk::listed(everybody@);
    let q = talk::listed(admin@);
    assert(p.len() == everybody@.len() && q.len() == admin@.len());
    assert(p[0].0 == everybody@[0].command@ && p[1].0 == everybody@[1].command@);
    assert(q[0].0 == admin@[0].command@ && q[1].0 == admin@[1].command@ && q[2].0
        == admin@[2].command@ && q[3].0 == admin@[3].command@ && q[4].0 == admin@[4].command@
        && q[5].0 == admin@[5].command@ && q[6].0 == admin@[6].command@ && q[7].0
        == admin@[7].command@ && q[8].0 == admin@[8].command@ && q[9].0 == admin@[9].command@
        && q[10].0 == admin@[10].command@ && q[11].0 == admin@[11].command@);
}

/// **What is done at once is only what it says**: a restoration and an upgrade are announced, and the
/// press of a button for a QR code is answered.
pub proof fn law_what_is_done_at_once(
    config: Config,
    me: i64,
    x: Seq<char>,
    data: &str,
    o: Opening,
)
    requires
        config.telegram_admin_chat_id == Some(me),
        call_ensures(handle_callback, (&config, me, data), o),
        data@ == "restore:"@ + x,
    ensures
        o.acts@.len() == 2 && o.acts@[0] == Act::Answer(Option::<String>::None) && (o.acts@[1]
            matches Act::Edit(n) && n.text@ == "Restoring from snapshot ["@ + x + "]..."@
            && n.keyboard is None),
{
    assert(talk::begins_at(config, data@, o));
    laws::law_buttons_are_understood(config, x, o);
    laws::lemma_restore_announced(config, x, o);
    assert(talk::act_views(o.acts@).len() == o.acts@.len());
    assert(talk::act_views(o.acts@)[0] == o.acts@[0]@);
    assert(talk::act_views(o.acts@)[1] == o.acts@[1]@);
}

/// **The administrator is welcomed and helped**, and nothing is asked for then.
pub proof fn law_administrator_is_welcomed(
    config: Config,
    me: i64,
    start: Opening,
    help: Opening,
)
    requires
        config.telegram_admin_chat_id == Some(me),
        call_ensures(handle_command, (&config, me, Command::Start), start),
        call_ensures(handle_command, (&config, me, Command::Help), help),
    ensures
        start.acts@.len() == 0 && tells(
            start.talk,
            "Welcome, admin!\n\nUse /help to see available commands."@,
        ),
        help.acts@.len() == 0 && (help.talk matches Talk::Done { acts } && acts@.len() == 1 && (
        acts@[0] matches Act::Send(n) && n.text@
            == "Commands:\n/add <name> - Add user\n/del <name> - Delete user\n/config <name> - Get connection config\n/qr <name> - Get QR code\n/users - List users\n/status - Server info\n/snapshot - Create backup\n/upgrade - Upgrade Xray"@)),
{
    if let Talk::Done { acts } = start.talk {
        assert(talk::act_views(acts@).len() == acts@.len());
        if acts@.len() == 1 {
            assert(talk::act_views(acts@)[0] == acts@[0]@);
        }
    }
    if let Talk::Done { acts } = help.talk {
        assert(talk::act_views(acts@).len() == acts@.len());
        if acts@.len() == 1 {
            assert(talk::act_views(acts@)[0] == acts@[0]@);
        }
    }
}

} // verus!
