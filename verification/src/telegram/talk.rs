//! Conversations with the bot: what it says, and what it needs for that.

use crate::bridge_client;
use crate::bridge_client::parse_bridge_stats;
use crate::config::Config;
use crate::decimal;
use crate::decimal::u64_text;
use crate::display;
use crate::display::short_id;
use crate::error::AppError;
use crate::telegram::keyboards;
use crate::telegram::keyboards::{
    build_user_keyboard, delete_confirmation_keyboard, format_empty_keyboard_message,
    format_selection_message, upgrade_keyboard, ButtonV, Keyboard, CONFIG_PREFIX,
    DELETE_CANCEL_PREFIX, DELETE_CONFIRM_PREFIX, DELETE_PREFIX, QR_PREFIX, RESTORE_PREFIX,
    UPGRADE_CANCEL_PREFIX, UPGRADE_CONFIRM_PREFIX, URL_PREFIX,
};
use crate::telegram::texts;
use crate::telegram::texts::{
    access_denied_text, format_add_message, format_delete_confirm_message,
    format_delete_success_message, format_status_message, format_urls, format_users_message,
    format_users_message_with_bridge, help_text, validate_user_name, welcome_text,
};
use crate::text;
use crate::text::{cat2, cat3, cat5, is_empty, join, no_texts, push_text, same, strip_prefix, trim};
use crate::work;
use crate::work::{
    emails_of, place_of_id, sum_of, uuid_of_name, Got, Need, NeedV, SnapshotInfo, UpgradeResult,
};
use crate::xray::answers;
use crate::xray::client::ServerInfo;
use crate::xray::table;
use crate::xray::types;
use crate::xray::types::{TrafficStats, UserV, XrayUser};
use vstd::prelude::*;

verus! {

/// The commands of the bot.
#[derive(Debug, Clone)]
pub enum Command {
    Start,
    Help,
    Users,
    Status,
    Add(String),
    Del(String),
    Config(String),
    Qr(String),
    Snapshot,
    Snapshots,
    Restore(String),
    Upgrade,
}

/// A command as it is listed: its name and what it does.
#[derive(Debug, Clone)]
pub struct BotCommand {
    pub command: String,
    pub description: String,
}

/// The meanings of listed commands.
pub open spec fn listed(s: Seq<BotCommand>) -> Seq<(Seq<char>, Seq<char>)> {
    Seq::new(s.len(), |i: int| (s[i].command@, s[i].description@))
}

fn list(v: &mut Vec<BotCommand>, command: &str, description: &str)
    ensures
        listed(final(v)@) == listed(old(v)@).push((command@, description@)),
{
    let ghost before = listed(v@);
    v.push(BotCommand { command: command.to_owned(), description: description.to_owned() });
    assert(listed(v@) =~= before.push((command@, description@)));
}

/// The commands that everybody sees.
pub fn public_commands() -> (r: Vec<BotCommand>)
    ensures
        listed(r@) == seq![("start"@, "Welcome message"@), ("help"@, "Show help"@)],
{
    let mut v: Vec<BotCommand> = Vec::new();
    assert(listed(v@) =~= Seq::empty());
    list(&mut v, "start", "Welcome message");
    list(&mut v, "help", "Show help");
    assert(listed(v@) =~= seq![("start"@, "Welcome message"@), ("help"@, "Show help"@)]);
    v
}

impl Command {
    /// The commands that the administrator sees.
    pub open spec fn all() -> Seq<(Seq<char>, Seq<char>)> {
        seq![
            ("start"@, "Welcome message"@),
            ("help"@, "Show help"@),
            ("users"@, "List users with stats"@),
            ("status"@, "Server info"@),
            ("add"@, "Add user: /add <name>"@),
            ("del"@, "Delete user: /del <name>"@),
            ("config"@, "Get config: /config <name>"@),
            ("qr"@, "Get QR code: /qr <name>"@),
            ("snapshot"@, "Create snapshot"@),
            ("snapshots"@, "List snapshots"@),
            ("restore"@, "Restore snapshot"@),
            ("upgrade"@, "Upgrade Xray"@),
        ]
    }

    /// The commands that the administrator sees.
    pub fn bot_commands() -> (r: Vec<BotCommand>)
        ensures
            listed(r@) == Command::all(),
    {
        let mut v = public_commands();
        list(&mut v, "users", "List users with stats");
        list(&mut v, "status", "Server info");
        list(&mut v, "add", "Add user: /add <name>");
        list(&mut v, "del", "Delete user: /del <name>");
        list(&mut v, "config", "Get config: /config <name>");
        list(&mut v, "qr", "Get QR code: /qr <name>");
        list(&mut v, "snapshot", "Create snapshot");
        list(&mut v, "snapshots", "List snapshots");
        list(&mut v, "restore", "Restore snapshot");
        list(&mut v, "upgrade", "Upgrade Xray");
        assert(listed(v@) =~= Command::all());
        v
    }
}

/// Whether somebody is the administrator.
pub fn is_admin(config: &Config, chat_id: i64) -> (r: bool)
    ensures
        r == (config.telegram_admin_chat_id == Some(chat_id)),
{
    match config.telegram_admin_chat_id {
        Some(id) => id == chat_id,
        None => false,
    }
}

// ---- what the bot does ----

/// A message. Where it is needed and cannot be sent, nothing more is done.
#[derive(Debug)]
pub struct Note {
    pub text: String,
    /// Whether the text is HTML.
    pub html: bool,
    pub keyboard: Option<Keyboard>,
    pub needed: bool,
}

pub struct NoteV {
    pub text: Seq<char>,
    pub html: bool,
    pub keyboard: Option<Seq<Seq<ButtonV>>>,
    pub needed: bool,
}

/// The meaning of a keyboard that may be missing.
pub open spec fn opt_keyboard(k: Option<Keyboard>) -> Option<Seq<Seq<ButtonV>>> {
    match k {
        Some(x) => Some(x@),
        None => None,
    }
}

impl View for Note {
    type V = NoteV;

    open spec fn view(&self) -> NoteV {
        NoteV {
            text: self.text@,
            html: self.html,
            keyboard: opt_keyboard(self.keyboard),
            needed: self.needed,
        }
    }
}

/// Something that the bot does.
#[derive(Debug)]
pub enum Act {
    /// Sends a message.
    Send(Note),
    /// Puts a message in the place of the one whose button was pressed.
    Edit(Note),
    /// Answers the press of a button, with a text or without.
    Answer(Option<String>),
    /// Sends a picture.
    Photo { png: Vec<u8>, caption: String },
    /// Sends a file. `told` says whether it is told where that cannot be done.
    Document { bytes: Vec<u8>, name: String, caption: String, told: bool },
}

pub enum ActV {
    Send(NoteV),
    Edit(NoteV),
    Answer(Option<Seq<char>>),
    Photo(Seq<u8>, Seq<char>),
    Document(Seq<u8>, Seq<char>, Seq<char>, bool),
}

impl View for Act {
    type V = ActV;

    open spec fn view(&self) -> ActV {
        match self {
            Act::Send(n) => ActV::Send(n@),
            Act::Edit(n) => ActV::Edit(n@),
            Act::Answer(t) => ActV::Answer(text::opt_text(*t)),
            Act::Photo { png, caption } => ActV::Photo(png@, caption@),
            Act::Document { bytes, name, caption, told } => ActV::Document(
                bytes@,
                name@,
                caption@,
                *told,
            ),
        }
    }
}

/// The meanings of what the bot does.
pub open spec fn act_views(s: Seq<Act>) -> Seq<ActV> {
    Seq::new(s.len(), |i: int| s[i]@)
}

/// A message without anything.
pub open spec fn plain(t: Seq<char>) -> NoteV {
    NoteV { text: t, html: false, keyboard: None, needed: true }
}

/// A message in HTML.
pub open spec fn html(t: Seq<char>) -> NoteV {
    NoteV { text: t, html: true, keyboard: None, needed: true }
}

/// A message with buttons.
pub open spec fn with_buttons(t: Seq<char>, k: Seq<Seq<ButtonV>>) -> NoteV {
    NoteV { text: t, html: false, keyboard: Some(k), needed: true }
}

/// The message, which need not be sent.
pub open spec fn unneeded(n: NoteV) -> NoteV {
    NoteV { needed: false, ..n }
}

/// What is said of an error.
pub open spec fn error_said(m: Seq<char>) -> Seq<char> {
    "Error: "@ + m
}

/// What is said where a file cannot be sent.
pub fn document_failure(e: &str) -> (r: String)
    ensures
        r@ == error_said("failed to send document: "@ + e@),
{
    cat2("Error: ", &cat2("failed to send document: ", e))
}

/// Where the answer to a command goes.
#[derive(Debug, Clone, Copy, PartialEq, Eq, Structural)]
pub enum Place {
    /// Into the chat.
    Chat,
    /// In the place of the message whose button was pressed.
    Button,
}

/// A message in its place.
pub open spec fn placed(place: Place, n: NoteV) -> Seq<ActV> {
    match place {
        Place::Chat => seq![ActV::Send(n)],
        Place::Button => seq![ActV::Answer(None), ActV::Edit(n)],
    }
}

/// What a user is chosen for.
#[derive(Debug, Clone, Copy, PartialEq, Eq, Structural)]
pub enum Choice {
    Delete,
    Config,
    Qr,
}

impl Choice {
    /// What the data of the buttons begins with.
    pub open spec fn prefix(self) -> Seq<char> {
        match self {
            Choice::Delete => DELETE_PREFIX@,
            Choice::Config => CONFIG_PREFIX@,
            Choice::Qr => QR_PREFIX@,
        }
    }

    /// The command that does it with a name.
    pub open spec fn hint(self) -> Seq<char> {
        match self {
            Choice::Delete => "/del <name>"@,
            Choice::Config => "/config <name>"@,
            Choice::Qr => "/qr <name>"@,
        }
    }

    /// The question.
    pub open spec fn question(self) -> Seq<char> {
        match self {
            Choice::Delete => "Select a user to delete:"@,
            _ => "Select a user:"@,
        }
    }
}

// ---- the state of a conversation ----

/// How far a conversation is, and what it goes on with.
#[derive(Debug)]
pub enum Talk {
    Users { bridge: bool },
    UsersTraffic { bridge: bool, users: Vec<XrayUser> },
    UsersBridge { rows: Vec<(XrayUser, TrafficStats, u32)> },
    Status { bridge: bool },
    StatusUsers { bridge: bool, info: ServerInfo },
    StatusOnline { bridge: bool, info: ServerInfo, emails: Vec<String> },
    StatusUptime { bridge: bool, info: ServerInfo, users: usize, online: usize },
    StatusLatest { bridge: bool, info: ServerInfo, users: usize, online: usize, uptime: String },
    StatusHealth { said: String },
    Add { bridge: bool, name: String },
    AddBridgeUrl { bridge: bool, name: String, uuid: String },
    AddDirectUrl { bridge: bool, name: String, uuid: String, bridge_url: String },
    AddRegister { uuid: String, email: String, said: String },
    Choose { choice: Choice },
    Prompt { name: String, place: Place },
    Delete { bridge: bool, uuid: String },
    DeleteRemove { bridge: bool, uuid: String, name: String, email: String },
    DeleteUnregister { name: String, email: String },
    Config { name: String, place: Place },
    ConfigBridgeUrl { uuid: String, place: Place },
    ConfigDirectUrl { uuid: String, bridge_url: String, place: Place },
    Qr { name: String, place: Place },
    QrBridgeUrl { name: String, uuid: String, place: Place },
    QrDirectUrl { name: String, uuid: String, bridge_url: String, place: Place },
    QrBridge { name: String, bridge_url: String, direct_url: String, place: Place },
    QrDirect { name: String, direct_url: String, bridge_png: Vec<u8>, place: Place },
    Snapshot,
    SnapshotPack { info: SnapshotInfo },
    Snapshots,
    RestoreChoose,
    Restore { tag: String },
    UpgradeCheck,
    UpgradeNewest { version: String },
    Upgrade,
    UpgradePack { result: UpgradeResult },
    /// The conversation ends with this.
    Done { acts: Vec<Act> },
}

/// The conversation ends with that.
pub open spec fn ends(t: Talk, acts: Seq<ActV>) -> bool {
    t matches Talk::Done { acts: a } && act_views(a@) == acts
}

/// A conversation as it begins: what is done at once, and how it goes on.
#[derive(Debug)]
pub struct Opening {
    pub acts: Vec<Act>,
    pub talk: Talk,
}

impl Talk {
    /// What the conversation needs next; nothing where it ends.
    pub open spec fn wants(self) -> Option<NeedV> {
        match self {
            Talk::Users { .. } => Some(NeedV::Users),
            Talk::UsersTraffic { users, .. } => Some(
                NeedV::Traffic(work::emails(table::user_views(users@))),
            ),
            Talk::UsersBridge { .. } => Some(NeedV::BridgeStats),
            Talk::Status { .. } => Some(NeedV::ServerInfo),
            Talk::StatusUsers { .. } => Some(NeedV::Users),
            Talk::StatusOnline { emails, .. } => Some(NeedV::Counts(text::texts(emails@))),
            Talk::StatusUptime { .. } => Some(NeedV::Uptime),
            Talk::StatusLatest { .. } => Some(NeedV::Latest),
            Talk::StatusHealth { .. } => Some(NeedV::BridgeHealth),
            Talk::Add { name, .. } => Some(NeedV::AddUser(name@)),
            Talk::AddBridgeUrl { uuid, .. } => Some(NeedV::BridgeUrl(uuid@)),
            Talk::AddDirectUrl { uuid, .. } => Some(NeedV::DirectUrl(uuid@)),
            Talk::AddRegister { uuid, email, .. } => Some(NeedV::Register(uuid@, email@)),
            Talk::Choose { .. } => Some(NeedV::Users),
            Talk::Prompt { .. } => Some(NeedV::Users),
            Talk::Delete { .. } => Some(NeedV::Users),
            Talk::DeleteRemove { uuid, .. } => Some(NeedV::RemoveUser(uuid@)),
            Talk::DeleteUnregister { email, .. } => Some(NeedV::Unregister(email@)),
            Talk::Config { .. } => Some(NeedV::Users),
            Talk::ConfigBridgeUrl { uuid, .. } => Some(NeedV::BridgeUrl(uuid@)),
            Talk::ConfigDirectUrl { uuid, .. } => Some(NeedV::DirectUrl(uuid@)),
            Talk::Qr { .. } => Some(NeedV::Users),
            Talk::QrBridgeUrl { uuid, .. } => Some(NeedV::BridgeUrl(uuid@)),
            Talk::QrDirectUrl { uuid, .. } => Some(NeedV::DirectUrl(uuid@)),
            Talk::QrBridge { bridge_url, .. } => Some(NeedV::Qr(bridge_url@)),
            Talk::QrDirect { direct_url, .. } => Some(NeedV::Qr(direct_url@)),
            Talk::Snapshot => Some(NeedV::CreateSnapshot),
            Talk::SnapshotPack { info } => Some(NeedV::Pack(info.tag@)),
            Talk::Snapshots => Some(NeedV::Snapshots),
            Talk::RestoreChoose => Some(NeedV::Snapshots),
            Talk::Restore { tag } => Some(NeedV::Restore(tag@)),
            Talk::UpgradeCheck => Some(NeedV::ServerInfo),
            Talk::UpgradeNewest { .. } => Some(NeedV::Newest),
            Talk::Upgrade => Some(NeedV::Upgrade),
            Talk::UpgradePack { result } => Some(NeedV::Pack(result.snapshot_tag@)),
            Talk::Done { .. } => None,
        }
    }

    /// What the conversation needs next; nothing where it ends.
    pub fn need(&self) -> (r: Option<Need>)
        ensures
            work::opt_need(r) == self.wants(),
    {
        match self {
            Talk::Users { .. } => Some(Need::Users),
            Talk::UsersTraffic { users, .. } => Some(Need::Traffic(emails_of(users))),
            Talk::UsersBridge { .. } => Some(Need::BridgeStats),
            Talk::Status { .. } => Some(Need::ServerInfo),
            Talk::StatusUsers { .. } => Some(Need::Users),
            Talk::StatusOnline { emails, .. } => Some(Need::Counts(copied(emails))),
            Talk::StatusUptime { .. } => Some(Need::Uptime),
            Talk::StatusLatest { .. } => Some(Need::Latest),
            Talk::StatusHealth { .. } => Some(Need::BridgeHealth),
            Talk::Add { name, .. } => Some(Need::AddUser(name.clone())),
            Talk::AddBridgeUrl { uuid, .. } => Some(Need::BridgeUrl(uuid.clone())),
            Talk::AddDirectUrl { uuid, .. } => Some(Need::DirectUrl(uuid.clone())),
            Talk::AddRegister { uuid, email, .. } => Some(
                Need::Register { uuid: uuid.clone(), email: email.clone() },
            ),
            Talk::Choose { .. } => Some(Need::Users),
            Talk::Prompt { .. } => Some(Need::Users),
            Talk::Delete { .. } => Some(Need::Users),
            Talk::DeleteRemove { uuid, .. } => Some(Need::RemoveUser(uuid.clone())),
            Talk::DeleteUnregister { email, .. } => Some(Need::Unregister(email.clone())),
            Talk::Config { .. } => Some(Need::Users),
            Talk::ConfigBridgeUrl { uuid, .. } => Some(Need::BridgeUrl(uuid.clone())),
            Talk::ConfigDirectUrl { uuid, .. } => Some(Need::DirectUrl(uuid.clone())),
            Talk::Qr { .. } => Some(Need::Users),
            Talk::QrBridgeUrl { uuid, .. } => Some(Need::BridgeUrl(uuid.clone())),
            Talk::QrDirectUrl { uuid, .. } => Some(Need::DirectUrl(uuid.clone())),
            Talk::QrBridge { bridge_url, .. } => Some(Need::Qr(bridge_url.clone())),
            Talk::QrDirect { direct_url, .. } => Some(Need::Qr(direct_url.clone())),
            Talk::Snapshot => Some(Need::CreateSnapshot),
            Talk::SnapshotPack { info } => Some(Need::Pack(info.tag.clone())),
            Talk::Snapshots => Some(Need::Snapshots),
            Talk::RestoreChoose => Some(Need::Snapshots),
            Talk::Restore { tag } => Some(Need::Restore(tag.clone())),
            Talk::UpgradeCheck => Some(Need::ServerInfo),
            Talk::UpgradeNewest { .. } => Some(Need::Newest),
            Talk::Upgrade => Some(Need::Upgrade),
            Talk::UpgradePack { result } => Some(Need::Pack(result.snapshot_tag.clone())),
            Talk::Done { .. } => None,
        }
    }
}

fn copied(v: &Vec<String>) -> (r: Vec<String>)
    ensures
        text::texts(r@) == text::texts(v@),
{
    let mut r = no_texts();
    let mut i: usize = 0;
    while i < v.len()
        invariant
            i <= v@.len(),
            text::texts(r@) =~= text::texts(v@).take(i as int),
        decreases v.len() - i,
    {
        push_text(&mut r, v[i].clone());
        i += 1;
    }
    assert(text::texts(r@) =~= text::texts(v@));
    r
}

// ---- how a conversation begins ----

/// The text as a command that takes a name gets it, and whether that is nothing.
pub open spec fn argument(s: String) -> Seq<char> {
    text::trimmed(s@)
}

/// How a conversation begins with a command of the administrator.
pub open spec fn begins_with(config: Config, cmd: Command, o: Opening) -> bool {
    let bridge = config.bridge_agent_url is Some;
    match cmd {
        Command::Start => o.acts@.len() == 0 && ends(
            o.talk,
            seq![ActV::Send(plain("Welcome, admin!\n\nUse /help to see available commands."@))],
        ),
        Command::Help => o.acts@.len() == 0 && ends(
            o.talk,
            seq![
                ActV::Send(
                    plain(
                        "Commands:\n/add <name> - Add user\n/del <name> - Delete user\n/config <name> - Get connection config\n/qr <name> - Get QR code\n/users - List users\n/status - Server info\n/snapshot - Create backup\n/upgrade - Upgrade Xray"@,
                    ),
                ),
            ],
        ),
        Command::Users => o.acts@.len() == 0 && o.talk == (Talk::Users { bridge }),
        Command::Status => o.acts@.len() == 0 && o.talk == (Talk::Status { bridge }),
        Command::Add(n) => o.acts@.len() == 0 && match texts::name_problem(argument(n)) {
            Some(m) => ends(o.talk, seq![ActV::Send(plain(m))]),
            None => (o.talk matches Talk::Add { bridge: b, name } && b == bridge && name@
                == argument(n)),
        },
        Command::Del(n) => o.acts@.len() == 0 && if argument(n).len() == 0 {
            o.talk == (Talk::Choose { choice: Choice::Delete })
        } else {
            o.talk matches Talk::Prompt { name, place } && name@ == argument(n) && place
                == Place::Chat
        },
        Command::Config(n) => o.acts@.len() == 0 && if argument(n).len() == 0 {
            o.talk == (Talk::Choose { choice: Choice::Config })
        } else {
            o.talk matches Talk::Config { name, place } && name@ == argument(n) && place
                == Place::Chat
        },
        Command::Qr(n) => o.acts@.len() == 0 && if argument(n).len() == 0 {
            o.talk == (Talk::Choose { choice: Choice::Qr })
        } else {
            o.talk matches Talk::Qr { name, place } && name@ == argument(n) && place == Place::Chat
        },
        Command::Snapshot => act_views(o.acts@) == seq![
            ActV::Send(unneeded(plain("Creating snapshot..."@))),
        ] && o.talk == Talk::Snapshot,
        Command::Snapshots => o.acts@.len() == 0 && o.talk == Talk::Snapshots,
        Command::Restore(t) => o.acts@.len() == 0 && if argument(t).len() == 0 {
            o.talk == Talk::RestoreChoose
        } else {
            o.talk matches Talk::Restore { tag } && tag@ == argument(t)
        },
        Command::Upgrade => o.acts@.len() == 0 && o.talk == Talk::UpgradeCheck,
    }
}

/// How a conversation begins with a button that the administrator pressed.
pub open spec fn begins_at(config: Config, data: Seq<char>, o: Opening) -> bool {
    let bridge = config.bridge_agent_url is Some;
    if let Some(n) = text::after_prefix(data, CONFIG_PREFIX@) {
        o.acts@.len() == 0 && (o.talk matches Talk::Config { name, place } && name@ == n && place
            == Place::Button)
    } else if let Some(n) = text::after_prefix(data, URL_PREFIX@) {
        o.acts@.len() == 0 && (o.talk matches Talk::Config { name, place } && name@ == n && place
            == Place::Button)
    } else if let Some(n) = text::after_prefix(data, QR_PREFIX@) {
        act_views(o.acts@) == seq![ActV::Answer(None)] && (o.talk matches Talk::Qr { name, place }
            && name@ == n && place == Place::Button)
    } else if let Some(n) = text::after_prefix(data, DELETE_PREFIX@) {
        o.acts@.len() == 0 && (o.talk matches Talk::Prompt { name, place } && name@ == n && place
            == Place::Button)
    } else if let Some(u) = text::after_prefix(data, DELETE_CONFIRM_PREFIX@) {
        o.acts@.len() == 0 && (o.talk matches Talk::Delete { bridge: b, uuid } && b == bridge
            && uuid@ == u)
    } else if text::after_prefix(data, DELETE_CANCEL_PREFIX@) is Some {
        o.acts@.len() == 0 && ends(o.talk, placed(Place::Button, plain("Deletion cancelled."@)))
    } else if let Some(t) = text::after_prefix(data, RESTORE_PREFIX@) {
        act_views(o.acts@) == placed(
            Place::Button,
            plain("Restoring from snapshot ["@ + t + "]..."@),
        ) && (o.talk matches Talk::Restore { tag } && tag@ == t)
    } else if data == UPGRADE_CONFIRM_PREFIX@ {
        act_views(o.acts@) == seq![
            ActV::Answer(None),
            ActV::Edit(plain("\u{23f3} Upgrading..."@)),
            ActV::Send(unneeded(plain("\u{23f3} Upgrading..."@))),
        ] && o.talk == Talk::Upgrade
    } else if data == UPGRADE_CANCEL_PREFIX@ {
        o.acts@.len() == 0 && ends(o.talk, placed(Place::Button, plain("Upgrade cancelled."@)))
    } else {
        o.acts@.len() == 0 && ends(o.talk, Seq::empty())
    }
}

fn plain_note(text: String) -> (r: Note)
    ensures
        r@ == plain(text@),
{
    Note { text, html: false, keyboard: None, needed: true }
}

fn html_note(text: String) -> (r: Note)
    ensures
        r@ == html(text@),
{
    Note { text, html: true, keyboard: None, needed: true }
}

fn unneeded_note(text: String) -> (r: Note)
    ensures
        r@ == unneeded(plain(text@)),
{
    Note { text, html: false, keyboard: None, needed: false }
}

fn button_note(text: String, keyboard: Keyboard) -> (r: Note)
    ensures
        r@ == with_buttons(text@, keyboard@),
{
    Note { text, html: false, keyboard: Some(keyboard), needed: true }
}

fn one_act(a: Act) -> (r: Vec<Act>)
    ensures
        act_views(r@) == seq![a@],
{
    let mut v: Vec<Act> = Vec::new();
    v.push(a);
    assert(act_views(v@) =~= seq![a@]);
    v
}

fn push_act(v: &mut Vec<Act>, a: Act)
    ensures
        act_views(final(v)@) == act_views(old(v)@).push(a@),
{
    let ghost before = act_views(v@);
    v.push(a);
    assert(act_views(v@) =~= before.push(a@));
}

fn place_note(place: Place, note: Note) -> (r: Vec<Act>)
    ensures
        act_views(r@) == placed(place, note@),
{
    match place {
        Place::Chat => one_act(Act::Send(note)),
        Place::Button => {
            let mut v = one_act(Act::Answer(None));
            push_act(&mut v, Act::Edit(note));
            assert(act_views(v@) =~= placed(place, note@));
            v
        },
    }
}

fn said(note: Note) -> (r: Talk)
    ensures
        ends(r, seq![ActV::Send(note@)]),
{
    Talk::Done { acts: one_act(Act::Send(note)) }
}

fn opening(talk: Talk) -> (r: Opening)
    ensures
        r.acts@.len() == 0 && r.talk == talk,
{
    Opening { acts: Vec::new(), talk }
}

fn error_text(e: &AppError) -> (r: String)
    ensures
        r@ == error_said(e.text()),
{
    cat2("Error: ", e.message())
}

/// Begins a conversation with a command. Everybody but the administrator is turned away.
pub fn handle_command(config: &Config, chat_id: i64, cmd: Command) -> (o: Opening)
    ensures
        if config.telegram_admin_chat_id == Some(chat_id) {
            begins_with(*config, cmd, o)
        } else {
            o.acts@.len() == 0 && ends(
                o.talk,
                seq![ActV::Send(plain("Access denied. Contact the server administrator."@))],
            )
        },
{
    if !is_admin(config, chat_id) {
        return opening(said(plain_note(access_denied_text())));
    }
    let bridge: bool = config.bridge_agent_url.is_some();
    match cmd {
        Command::Start => opening(said(plain_note(welcome_text()))),
        Command::Help => opening(said(plain_note(help_text()))),
        Command::Users => opening(Talk::Users { bridge }),
        Command::Status => opening(Talk::Status { bridge }),
        Command::Add(n) => {
            let name = trim(&n);
            match validate_user_name(&name) {
                Some(m) => opening(said(plain_note(m))),
                None => opening(Talk::Add { bridge, name }),
            }
        },
        Command::Del(n) => {
            let name = trim(&n);
            if is_empty(&name) {
                opening(Talk::Choose { choice: Choice::Delete })
            } else {
                opening(Talk::Prompt { name, place: Place::Chat })
            }
        },
        Command::Config(n) => {
            let name = trim(&n);
            if is_empty(&name) {
                opening(Talk::Choose { choice: Choice::Config })
            } else {
                opening(Talk::Config { name, place: Place::Chat })
            }
        },
        Command::Qr(n) => {
            let name = trim(&n);
            if is_empty(&name) {
                opening(Talk::Choose { choice: Choice::Qr })
            } else {
                opening(Talk::Qr { name, place: Place::Chat })
            }
        },
        Command::Snapshot => Opening {
            acts: one_act(Act::Send(unneeded_note("Creating snapshot...".to_owned()))),
            talk: Talk::Snapshot,
        },
        Command::Snapshots => opening(Talk::Snapshots),
        Command::Restore(t) => {
            let tag = trim(&t);
            if is_empty(&tag) {
                opening(Talk::RestoreChoose)
            } else {
                opening(Talk::Restore { tag })
            }
        },
        Command::Upgrade => opening(Talk::UpgradeCheck),
    }
}

/// Begins a conversation with a button that somebody pressed. Everybody but the administrator is
/// turned away.
pub fn handle_callback(config: &Config, caller_id: i64, data: &str) -> (o: Opening)
    ensures
        if config.telegram_admin_chat_id == Some(caller_id) {
            begins_at(*config, data@, o)
        } else {
            o.acts@.len() == 0 && ends(o.talk, seq![ActV::Answer(Some("Access denied."@))])
        },
{
    if !is_admin(config, caller_id) {
        return opening(
            Talk::Done { acts: one_act(Act::Answer(Some("Access denied.".to_owned()))) },
        );
    }
    let bridge: bool = config.bridge_agent_url.is_some();
    if let Some(name) = strip_prefix(data, CONFIG_PREFIX) {
        return opening(Talk::Config { name, place: Place::Button });
    }
    if let Some(name) = strip_prefix(data, URL_PREFIX) {
        return opening(Talk::Config { name, place: Place::Button });
    }
    if let Some(name) = strip_prefix(data, QR_PREFIX) {
        return Opening {
            acts: one_act(Act::Answer(None)),
            talk: Talk::Qr { name, place: Place::Button },
        };
    }
    if let Some(name) = strip_prefix(data, DELETE_PREFIX) {
        return opening(Talk::Prompt { name, place: Place::Button });
    }
    if let Some(uuid) = strip_prefix(data, DELETE_CONFIRM_PREFIX) {
        return opening(Talk::Delete { bridge, uuid });
    }
    if let Some(_) = strip_prefix(data, DELETE_CANCEL_PREFIX) {
        return opening(
            Talk::Done {
                acts: place_note(Place::Button, plain_note("Deletion cancelled.".to_owned())),
            },
        );
    }
    if let Some(tag) = strip_prefix(data, RESTORE_PREFIX) {
        let note = plain_note(cat3("Restoring from snapshot [", &tag, "]..."));
        return Opening { acts: place_note(Place::Button, note), talk: Talk::Restore { tag } };
    }
    if same(data, UPGRADE_CONFIRM_PREFIX) {
        let mut acts = place_note(Place::Button, plain_note("\u{23f3} Upgrading...".to_owned()));
        push_act(&mut acts, Act::Send(unneeded_note("\u{23f3} Upgrading...".to_owned())));
        assert(act_views(acts@) =~= seq![
            ActV::Answer(None),
            ActV::Edit(plain("\u{23f3} Upgrading..."@)),
            ActV::Send(unneeded(plain("\u{23f3} Upgrading..."@))),
        ]);
        return Opening { acts, talk: Talk::Upgrade };
    }
    if same(data, UPGRADE_CANCEL_PREFIX) {
        return opening(
            Talk::Done {
                acts: place_note(Place::Button, plain_note("Upgrade cancelled.".to_owned())),
            },
        );
    }
    let acts: Vec<Act> = Vec::new();
    assert(act_views(acts@) =~= Seq::empty());
    opening(Talk::Done { acts })
}

// ---- how a conversation goes on ----

/// The users with their traffic; what could not be had counts as none.
pub open spec fn with_traffic(
    users: Seq<UserV>,
    t: Seq<(Option<TrafficStats>, Option<u32>)>,
) -> Seq<(UserV, TrafficStats, u32)> {
    Seq::new(
        users.len(),
        |i: int|
            (
                users[i],
                match t[i].0 {
                    Some(s) => s,
                    None => TrafficStats { uplink: 0, downlink: 0 },
                },
                match t[i].1 {
                    Some(n) => n,
                    None => 0,
                },
            ),
    )
}

fn traffic_rows(
    users: &Vec<XrayUser>,
    t: &Vec<(Option<TrafficStats>, Option<u32>)>,
) -> (r: Vec<(XrayUser, TrafficStats, u32)>)
    requires
        users@.len() == t@.len(),
    ensures
        texts::row_views(r@) == with_traffic(table::user_views(users@), t@),
{
    let ghost all = with_traffic(table::user_views(users@), t@);
    let mut rows: Vec<(XrayUser, TrafficStats, u32)> = Vec::new();
    let mut i: usize = 0;
    while i < users.len()
        invariant
            users@.len() == t@.len(),
            all == with_traffic(table::user_views(users@), t@),
            i <= users@.len(),
            texts::row_views(rows@) =~= all.take(i as int),
        decreases users.len() - i,
    {
        let stats = match t[i].0 {
            Some(s) => s,
            None => TrafficStats { uplink: 0, downlink: 0 },
        };
        let online: u32 = match t[i].1 {
            Some(n) => n,
            None => 0,
        };
        let ghost before = texts::row_views(rows@);
        let row = (users[i].duplicate(), stats, online);
        assert(texts::row_view(row) == all[i as int]);
        rows.push(row);
        assert(texts::row_views(rows@) =~= before.push(all[i as int]));
        i += 1;
    }
    assert(texts::row_views(rows@) =~= all);
    rows
}

/// The list of users goes on.
pub open spec fn users_after(t: Talk, got: Got, r: Talk) -> bool {
    match (t, got) {
        (Talk::Users { bridge }, Got::Users(users)) => r == (Talk::UsersTraffic { bridge, users }),
        (Talk::UsersTraffic { bridge, users }, Got::Traffic(x)) => {
            let rows = with_traffic(table::user_views(users@), x@);
            if bridge {
                r matches Talk::UsersBridge { rows: v } && texts::row_views(v@) == rows
            } else {
                ends(r, seq![ActV::Send(plain(texts::users_text(rows)))])
            }
        },
        (Talk::UsersBridge { rows }, Got::Maybe(Some(json))) => ends(
            r,
            seq![
                ActV::Send(
                    plain(
                        texts::merged_text(
                            texts::row_views(rows@),
                            bridge_client::bridge_traffic(answers::as_json(json@)),
                        ),
                    ),
                ),
            ],
        ),
        (Talk::UsersBridge { rows }, Got::Maybe(None)) => ends(
            r,
            seq![ActV::Send(plain(texts::users_text(texts::row_views(rows@))))],
        ),
        (_, Got::Failed(e)) => ends(r, seq![ActV::Send(plain(error_said(e.text())))]),
        _ => true,
    }
}

fn next_users(t: Talk, got: Got) -> (r: Talk)
    requires
        t is Users || t is UsersTraffic || t is UsersBridge,
        work::fits(t.wants(), got),
    ensures
        users_after(t, got, r),
{
    match (t, got) {
        (Talk::Users { bridge }, Got::Users(users)) => Talk::UsersTraffic { bridge, users },
        (Talk::UsersTraffic { bridge, users }, Got::Traffic(x)) => {
            let rows = traffic_rows(&users, &x);
            if bridge {
                Talk::UsersBridge { rows }
            } else {
                said(plain_note(format_users_message(&rows)))
            }
        },
        (Talk::UsersBridge { rows }, Got::Maybe(Some(json))) => {
            let stats = parse_bridge_stats(&json);
            said(plain_note(format_users_message_with_bridge(&rows, &stats)))
        },
        (Talk::UsersBridge { rows }, Got::Maybe(None)) => said(
            plain_note(format_users_message(&rows)),
        ),
        (t, Got::Failed(e)) => said(plain_note(error_text(&e))),
        (t, _) => t,
    }
}

/// The state of the server with that of the bridge.
pub open spec fn with_health(said: Seq<char>, up: bool) -> Seq<char> {
    said + "\n"@ + (if up {
        "Bridge: ✅ online"@
    } else {
        "Bridge: ❌ offline"@
    })
}

/// The state of the server goes on.
pub open spec fn status_after(t: Talk, got: Got, r: Talk) -> bool {
    match (t, got) {
        (Talk::Status { bridge }, Got::Info(info)) => r == (Talk::StatusUsers { bridge, info }),
        (Talk::StatusUsers { bridge, info }, Got::Users(users)) => (r matches Talk::StatusOnline {
            bridge: b,
            info: i,
            emails,
        } && b == bridge && i == info && text::texts(emails@) == work::emails(
            table::user_views(users@),
        )),
        (Talk::StatusOnline { bridge, info, emails }, Got::Counts(c)) => (r
            matches Talk::StatusUptime { bridge: b, info: i, users, online } && b == bridge && i
            == info && users == emails@.len() && online == work::total(c@)),
        (Talk::StatusUptime { bridge, info, users, online }, Got::Text(uptime)) => r == (
        Talk::StatusLatest { bridge, info, users, online, uptime }),
        (Talk::StatusLatest { bridge, info, users, online, uptime }, Got::Maybe(latest)) => {
            let text = texts::status_text(
                info,
                users as nat,
                online as nat,
                uptime@,
                text::opt_text(latest),
            );
            if bridge {
                r matches Talk::StatusHealth { said } && said@ == text
            } else {
                ends(r, seq![ActV::Send(plain(text))])
            }
        },
        (Talk::StatusHealth { said }, Got::Yes(up)) => ends(
            r,
            seq![ActV::Send(plain(with_health(said@, up)))],
        ),
        (Talk::StatusHealth { said }, Got::Failed(_)) => ends(
            r,
            seq![ActV::Send(plain(with_health(said@, false)))],
        ),
        (_, Got::Failed(e)) => ends(r, seq![ActV::Send(plain(error_said(e.text())))]),
        _ => true,
    }
}

fn health_text(said: &str, up: bool) -> (r: String)
    ensures
        r@ == with_health(said@, up),
{
    cat3(
        said,
        "\n",
        if up {
            "Bridge: ✅ online"
        } else {
            "Bridge: ❌ offline"
        },
    )
}

fn next_status(t: Talk, got: Got) -> (r: Talk)
    requires
        t is Status || t is StatusUsers || t is StatusOnline || t is StatusUptime
            || t is StatusLatest || t is StatusHealth,
        work::fits(t.wants(), got),
    ensures
        status_after(t, got, r),
{
    match (t, got) {
        (Talk::Status { bridge }, Got::Info(info)) => Talk::StatusUsers { bridge, info },
        (Talk::StatusUsers { bridge, info }, Got::Users(users)) => Talk::StatusOnline {
            bridge,
            info,
            emails: emails_of(&users),
        },
        (Talk::StatusOnline { bridge, info, emails }, Got::Counts(c)) => Talk::StatusUptime {
            bridge,
            info,
            users: emails.len(),
            online: sum_of(&c),
        },
        (Talk::StatusUptime { bridge, info, users, online }, Got::Text(uptime)) => {
            Talk::StatusLatest { bridge, info, users, online, uptime }
        },
        (Talk::StatusLatest { bridge, info, users, online, uptime }, Got::Maybe(latest)) => {
            let newest: Option<&str> = match &latest {
                Some(l) => Some(l.as_str()),
                None => None,
            };
            let text = format_status_message(&info, users, online, &uptime, newest);
            if bridge {
                Talk::StatusHealth { said: text }
            } else {
                said(plain_note(text))
            }
        },
        (Talk::StatusHealth { said: s }, Got::Yes(up)) => said(plain_note(health_text(&s, up))),
        (Talk::StatusHealth { said: s }, Got::Failed(_)) => said(
            plain_note(health_text(&s, false)),
        ),
        (t, Got::Failed(e)) => said(plain_note(error_text(&e))),
        (t, _) => t,
    }
}

/// Adding a user goes on. It is also added on the bridge, as far as that can be done.
pub open spec fn add_after(t: Talk, got: Got, r: Talk) -> bool {
    match (t, got) {
        (Talk::Add { bridge, name }, Got::Text(uuid)) => r == (Talk::AddBridgeUrl {
            bridge,
            name,
            uuid,
        }),
        (Talk::AddBridgeUrl { bridge, name, uuid }, Got::Text(bridge_url)) => r == (
        Talk::AddDirectUrl { bridge, name, uuid, bridge_url }),
        (Talk::AddDirectUrl { bridge, name, uuid, bridge_url }, Got::Text(direct_url)) => {
            let text = texts::added_text(name@, uuid@, bridge_url@, direct_url@);
            if bridge {
                r matches Talk::AddRegister { uuid: u, email, said } && u == uuid && email@
                    == types::email_of(name@) && said@ == text
            } else {
                ends(r, seq![ActV::Send(html(text))])
            }
        },
        (Talk::AddRegister { uuid, email, said }, _) => ends(r, seq![ActV::Send(html(said@))]),
        (_, Got::Failed(e)) => ends(r, seq![ActV::Send(html(error_said(e.text())))]),
        _ => true,
    }
}

fn next_add(t: Talk, got: Got) -> (r: Talk)
    requires
        t is Add || t is AddBridgeUrl || t is AddDirectUrl || t is AddRegister,
        work::fits(t.wants(), got),
    ensures
        add_after(t, got, r),
{
    match (t, got) {
        (Talk::Add { bridge, name }, Got::Text(uuid)) => Talk::AddBridgeUrl { bridge, name, uuid },
        (Talk::AddBridgeUrl { bridge, name, uuid }, Got::Text(bridge_url)) => {
            Talk::AddDirectUrl { bridge, name, uuid, bridge_url }
        },
        (Talk::AddDirectUrl { bridge, name, uuid, bridge_url }, Got::Text(direct_url)) => {
            let text = format_add_message(&name, &uuid, &bridge_url, &direct_url);
            if bridge {
                Talk::AddRegister { uuid, email: XrayUser::email_from_name(&name), said: text }
            } else {
                said(html_note(text))
            }
        },
        (Talk::AddRegister { uuid, email, said: s }, _) => said(html_note(s)),
        (t, Got::Failed(e)) => said(html_note(error_text(&e))),
        (t, _) => t,
    }
}

/// What is said where a user is to be chosen: a button for each, or why there is none.
pub open spec fn choice_note(choice: Choice, users: Seq<UserV>) -> NoteV {
    let k = users.filter(keyboards::offered(choice.prefix())).map_values(
        keyboards::user_button(choice.prefix()),
    );
    let skipped = users.filter(keyboards::too_long(choice.prefix())).map_values(
        keyboards::its_name(),
    );
    let unnamed = users.filter(keyboards::unnamed()).len();
    if k.len() == 0 {
        plain(keyboards::empty_text(choice.hint(), skipped, unnamed))
    } else {
        with_buttons(keyboards::selection_text(choice.question(), skipped, unnamed), k)
    }
}

fn offer(choice: Choice, users: &Vec<XrayUser>) -> (r: Note)
    ensures
        r@ == choice_note(choice, table::user_views(users@)),
{
    let (prefix, hint, question) = match choice {
        Choice::Delete => (DELETE_PREFIX, "/del <name>", "Select a user to delete:"),
        Choice::Config => (CONFIG_PREFIX, "/config <name>", "Select a user:"),
        Choice::Qr => (QR_PREFIX, "/qr <name>", "Select a user:"),
    };
    let k = build_user_keyboard(users, prefix);
    if k.keyboard.inline_keyboard.len() == 0 {
        plain_note(format_empty_keyboard_message(hint, &k.skipped_names, k.unnamed_count))
    } else {
        button_note(
            format_selection_message(question, &k.skipped_names, k.unnamed_count),
            k.keyboard,
        )
    }
}

/// That the question whether to delete a user cannot be put.
pub open spec fn prompt_failed(place: Place, m: Seq<char>) -> Seq<ActV> {
    match place {
        Place::Chat => seq![ActV::Send(plain(error_said(m)))],
        Place::Button => seq![ActV::Answer(Some(error_said(m)))],
    }
}

fn fail_prompt(place: Place, message: &str) -> (r: Talk)
    ensures
        ends(r, prompt_failed(place, message@)),
{
    let text = cat2("Error: ", message);
    match place {
        Place::Chat => said(plain_note(text)),
        Place::Button => Talk::Done { acts: one_act(Act::Answer(Some(text))) },
    }
}

/// Choosing and deleting a user goes on. It is also removed on the bridge, as far as that can be
/// done.
pub open spec fn delete_after(t: Talk, got: Got, r: Talk) -> bool {
    match (t, got) {
        (Talk::Choose { choice }, Got::Users(users)) => ends(
            r,
            seq![ActV::Send(choice_note(choice, table::user_views(users@)))],
        ),
        (Talk::Choose { choice }, Got::Failed(e)) => ends(
            r,
            seq![ActV::Send(plain(error_said(e.text())))],
        ),
        (Talk::Prompt { name, place }, Got::Users(users)) => match work::named(
            table::user_views(users@),
            name@,
        ) {
            Some(u) => ends(
                r,
                placed(
                    place,
                    with_buttons(
                        texts::confirm_text(name@),
                        keyboards::delete_buttons(u.uuid),
                    ),
                ),
            ),
            None => ends(r, prompt_failed(place, work::not_found(name@))),
        },
        (Talk::Prompt { name, place }, Got::Failed(e)) => ends(r, prompt_failed(place, e.text())),
        (Talk::Delete { bridge, uuid }, Got::Users(users)) => {
            let all = table::user_views(users@);
            let known = work::id_at(all, uuid@, 0);
            r matches Talk::DeleteRemove { bridge: b, uuid: u, name, email } && b == bridge && u
                == uuid && match known {
                Some(i) => name@ == all[i].name && email@ == all[i].email,
                None => name@ == display::short(uuid@) && email@ == display::short(uuid@),
            }
        },
        (Talk::DeleteRemove { bridge, uuid, name, email }, Got::Done) => if bridge {
            r == (Talk::DeleteUnregister { name, email })
        } else {
            ends(r, placed(Place::Button, plain(texts::deleted_text(name@))))
        },
        (Talk::DeleteUnregister { name, email }, _) => ends(
            r,
            placed(Place::Button, plain(texts::deleted_text(name@))),
        ),
        (_, Got::Failed(e)) => ends(r, placed(Place::Button, plain(error_said(e.text())))),
        _ => true,
    }
}

fn deleted(name: &str) -> (r: Talk)
    ensures
        ends(r, placed(Place::Button, plain(texts::deleted_text(name@)))),
{
    Talk::Done {
        acts: place_note(Place::Button, plain_note(format_delete_success_message(name))),
    }
}

fn next_delete(t: Talk, got: Got) -> (r: Talk)
    requires
        t is Choose || t is Prompt || t is Delete || t is DeleteRemove || t is DeleteUnregister,
        work::fits(t.wants(), got),
    ensures
        delete_after(t, got, r),
{
    match (t, got) {
        (Talk::Choose { choice }, Got::Users(users)) => said(offer(choice, &users)),
        (Talk::Choose { choice }, Got::Failed(e)) => said(plain_note(error_text(&e))),
        (Talk::Prompt { name, place }, Got::Users(users)) => match uuid_of_name(&users, &name) {
            Some(uuid) => {
                let note = button_note(
                    format_delete_confirm_message(&name),
                    delete_confirmation_keyboard(&uuid),
                );
                Talk::Done { acts: place_note(place, note) }
            },
            None => fail_prompt(place, &cat3("user '", &name, "' not found")),
        },
        (Talk::Prompt { name, place }, Got::Failed(e)) => fail_prompt(place, e.message()),
        (Talk::Delete { bridge, uuid }, Got::Users(users)) => {
            let (name, email) = match place_of_id(&users, &uuid) {
                Some(i) => (users[i].name.clone(), users[i].email.clone()),
                None => (short_id(&uuid), short_id(&uuid)),
            };
            Talk::DeleteRemove { bridge, uuid, name, email }
        },
        (Talk::DeleteRemove { bridge, uuid, name, email }, Got::Done) => if bridge {
            Talk::DeleteUnregister { name, email }
        } else {
            deleted(&name)
        },
        (Talk::DeleteUnregister { name, email }, _) => deleted(&name),
        (t, Got::Failed(e)) => Talk::Done {
            acts: place_note(Place::Button, plain_note(error_text(&e))),
        },
        (t, _) => t,
    }
}

/// Showing the URLs of a user goes on.
pub open spec fn config_after(t: Talk, got: Got, r: Talk) -> bool {
    match (t, got) {
        (Talk::Config { name, place }, Got::Users(users)) => match work::named(
            table::user_views(users@),
            name@,
        ) {
            Some(u) => (r matches Talk::ConfigBridgeUrl { uuid, place: p } && uuid@ == u.uuid && p
                == place),
            None => ends(r, placed(place, html(error_said(work::not_found(name@))))),
        },
        (Talk::ConfigBridgeUrl { uuid, place }, Got::Text(bridge_url)) => r == (
        Talk::ConfigDirectUrl { uuid, bridge_url, place }),
        (Talk::ConfigDirectUrl { uuid, bridge_url, place }, Got::Text(direct_url)) => ends(
            r,
            placed(place, html(texts::urls_text(bridge_url@, direct_url@))),
        ),
        (Talk::Config { name, place }, Got::Failed(e)) => ends(
            r,
            placed(place, html(error_said(e.text()))),
        ),
        (Talk::ConfigBridgeUrl { uuid, place }, Got::Failed(e)) => ends(
            r,
            placed(place, html(error_said(e.text()))),
        ),
        (Talk::ConfigDirectUrl { uuid, bridge_url, place }, Got::Failed(e)) => ends(
            r,
            placed(place, html(error_said(e.text()))),
        ),
        _ => true,
    }
}

fn place_html(place: Place, text: String) -> (r: Talk)
    ensures
        ends(r, placed(place, html(text@))),
{
    Talk::Done { acts: place_note(place, html_note(text)) }
}

fn next_config(t: Talk, got: Got) -> (r: Talk)
    requires
        t is Config || t is ConfigBridgeUrl || t is ConfigDirectUrl,
        work::fits(t.wants(), got),
    ensures
        config_after(t, got, r),
{
    match (t, got) {
        (Talk::Config { name, place }, Got::Users(users)) => match uuid_of_name(&users, &name) {
            Some(uuid) => Talk::ConfigBridgeUrl { uuid, place },
            None => place_html(place, cat2("Error: ", &cat3("user '", &name, "' not found"))),
        },
        (Talk::ConfigBridgeUrl { uuid, place }, Got::Text(bridge_url)) => {
            Talk::ConfigDirectUrl { uuid, bridge_url, place }
        },
        (Talk::ConfigDirectUrl { uuid, bridge_url, place }, Got::Text(direct_url)) => place_html(
            place,
            format_urls(&bridge_url, &direct_url),
        ),
        (Talk::Config { name, place }, Got::Failed(e)) => place_html(place, error_text(&e)),
        (Talk::ConfigBridgeUrl { uuid, place }, Got::Failed(e)) => place_html(
            place,
            error_text(&e),
        ),
        (Talk::ConfigDirectUrl { uuid, bridge_url, place }, Got::Failed(e)) => place_html(
            place,
            error_text(&e),
        ),
        (t, _) => t,
    }
}

/// That a QR code could not be drawn.
pub open spec fn qr_failed(e: Seq<char>) -> Seq<char> {
    "QR generation failed: "@ + e
}

/// The pictures of both URLs of a user. Where a button was pressed, it goes.
pub open spec fn qr_shown(
    name: Seq<char>,
    bridge_png: Seq<u8>,
    direct_png: Seq<u8>,
    place: Place,
) -> Seq<ActV> {
    let pictures = seq![
        ActV::Photo(bridge_png, "🏠 Bridge (censored regions) — "@ + name),
        ActV::Photo(direct_png, "🌍 Direct (abroad) — "@ + name),
    ];
    match place {
        Place::Chat => pictures,
        Place::Button => pictures.push(ActV::Edit(plain("QR for "@ + name))),
    }
}

/// Showing the QR codes of a user goes on.
pub open spec fn qr_after(t: Talk, got: Got, r: Talk) -> bool {
    match (t, got) {
        (Talk::Qr { name, place }, Got::Users(users)) => match work::named(
            table::user_views(users@),
            name@,
        ) {
            Some(u) => (r matches Talk::QrBridgeUrl { name: n, uuid, place: p } && n == name
                && uuid@ == u.uuid && p == place),
            None => ends(r, seq![ActV::Send(plain(error_said(work::not_found(name@))))]),
        },
        (Talk::QrBridgeUrl { name, uuid, place }, Got::Text(bridge_url)) => r == (
        Talk::QrDirectUrl { name, uuid, bridge_url, place }),
        (Talk::QrDirectUrl { name, uuid, bridge_url, place }, Got::Text(direct_url)) => r == (
        Talk::QrBridge { name, bridge_url, direct_url, place }),
        (Talk::QrBridge { name, bridge_url, direct_url, place }, Got::Bytes(bridge_png)) => r == (
        Talk::QrDirect { name, direct_url, bridge_png, place }),
        (Talk::QrDirect { name, direct_url, bridge_png, place }, Got::Bytes(direct_png)) => ends(
            r,
            qr_shown(name@, bridge_png@, direct_png@, place),
        ),
        (_, Got::Refused(e)) => ends(r, seq![ActV::Send(plain(error_said(qr_failed(e@))))]),
        (_, Got::Failed(e)) => ends(r, seq![ActV::Send(plain(error_said(e.text())))]),
        _ => true,
    }
}

fn show_qr(name: &str, bridge_png: Vec<u8>, direct_png: Vec<u8>, place: Place) -> (r: Talk)
    ensures
        ends(r, qr_shown(name@, bridge_png@, direct_png@, place)),
{
    let mut acts = one_act(
        Act::Photo { png: bridge_png, caption: cat2("🏠 Bridge (censored regions) — ", name) },
    );
    push_act(
        &mut acts,
        Act::Photo { png: direct_png, caption: cat2("🌍 Direct (abroad) — ", name) },
    );
    if place == Place::Button {
        push_act(&mut acts, Act::Edit(plain_note(cat2("QR for ", name))));
    }
    assert(act_views(acts@) =~= qr_shown(name@, bridge_png@, direct_png@, place));
    Talk::Done { acts }
}

fn next_qr(t: Talk, got: Got) -> (r: Talk)
    requires
        t is Qr || t is QrBridgeUrl || t is QrDirectUrl || t is QrBridge || t is QrDirect,
        work::fits(t.wants(), got),
    ensures
        qr_after(t, got, r),
{
    match (t, got) {
        (Talk::Qr { name, place }, Got::Users(users)) => match uuid_of_name(&users, &name) {
            Some(uuid) => Talk::QrBridgeUrl { name, uuid, place },
            None => said(
                plain_note(cat2("Error: ", &cat3("user '", &name, "' not found"))),
            ),
        },
        (Talk::QrBridgeUrl { name, uuid, place }, Got::Text(bridge_url)) => {
            Talk::QrDirectUrl { name, uuid, bridge_url, place }
        },
        (Talk::QrDirectUrl { name, uuid, bridge_url, place }, Got::Text(direct_url)) => {
            Talk::QrBridge { name, bridge_url, direct_url, place }
        },
        (Talk::QrBridge { name, bridge_url, direct_url, place }, Got::Bytes(bridge_png)) => {
            Talk::QrDirect { name, direct_url, bridge_png, place }
        },
        (Talk::QrDirect { name, direct_url, bridge_png, place }, Got::Bytes(direct_png)) => {
            show_qr(&name, bridge_png, direct_png, place)
        },
        (t, Got::Refused(e)) => said(
            plain_note(cat2("Error: ", &cat2("QR generation failed: ", &e))),
        ),
        (t, Got::Failed(e)) => said(plain_note(error_text(&e))),
        (t, _) => t,
    }
}

// ---- snapshots ----

/// The line of a snapshot.
pub open spec fn snap_line(s: SnapshotInfo) -> Seq<char> {
    "  "@ + s.tag@ + " | v"@ + s.version@ + " | "@ + decimal::dec(s.users_count as nat) + " users"@
}

/// The list of the snapshots.
pub open spec fn snaps_text(v: Seq<SnapshotInfo>) -> Seq<char> {
    if v.len() == 0 {
        "No snapshots found."@
    } else {
        text::joined(
            seq!["\u{1f4cb} Snapshots:"@, Seq::empty()] + Seq::new(
                v.len(),
                |i: int| snap_line(v[i]),
            ),
            "\n"@,
        )
    }
}

fn snap_line_text(s: &SnapshotInfo) -> (r: String)
    ensures
        r@ == snap_line(*s),
{
    let mut line = cat5("  ", &s.tag, " | v", &s.version, " | ");
    line.append(&u64_text(s.users_count as u64));
    line.append(" users");
    line
}

fn list_snaps(v: &Vec<SnapshotInfo>) -> (r: String)
    ensures
        r@ == snaps_text(v@),
{
    if v.len() == 0 {
        return "No snapshots found.".to_owned();
    }
    let mut lines = no_texts();
    push_text(&mut lines, "\u{1f4cb} Snapshots:".to_owned());
    push_text(&mut lines, String::new());
    let ghost head = seq!["\u{1f4cb} Snapshots:"@, Seq::<char>::empty()];
    let mut i: usize = 0;
    while i < v.len()
        invariant
            i <= v@.len(),
            text::texts(lines@) =~= head + Seq::new(i as nat, |j: int| snap_line(v@[j])),
        decreases v.len() - i,
    {
        push_text(&mut lines, snap_line_text(&v[i]));
        i += 1;
    }
    join(&lines, "\n")
}

/// The row with the button of a snapshot.
pub open spec fn snap_button(s: SnapshotInfo) -> Seq<ButtonV> {
    seq![
        ButtonV { text: s.tag@ + " | v"@ + s.version@, data: RESTORE_PREFIX@ + s.tag@ },
    ]
}

/// Buttons for the last five snapshots, the last one first.
pub open spec fn snap_buttons(v: Seq<SnapshotInfo>) -> Seq<Seq<ButtonV>> {
    Seq::new(
        if v.len() < 5 {
            v.len()
        } else {
            5
        },
        |i: int| snap_button(v[v.len() - 1 - i]),
    )
}

fn snap_keyboard(v: &Vec<SnapshotInfo>) -> (r: Keyboard)
    ensures
        r@ == snap_buttons(v@),
{
    let n: usize = if v.len() < 5 {
        v.len()
    } else {
        5
    };
    let mut k = Keyboard::new();
    let mut i: usize = 0;
    while i < n
        invariant
            n <= v@.len(),
            n == snap_buttons(v@).len(),
            i <= n,
            k@ =~= snap_buttons(v@).take(i as int),
        decreases n - i,
    {
        let s = &v[v.len() - 1 - i];
        k.push_button(cat3(&s.tag, " | v", &s.version), cat2(RESTORE_PREFIX, &s.tag));
        assert(snap_buttons(v@)[i as int] == snap_button(*s));
        i += 1;
    }
    assert(k@ =~= snap_buttons(v@));
    k
}

/// Making, listing and restoring snapshots goes on.
pub open spec fn snapshot_after(t: Talk, got: Got, r: Talk) -> bool {
    match (t, got) {
        (Talk::Snapshot, Got::Snapshot(info)) => r == (Talk::SnapshotPack { info }),
        (Talk::SnapshotPack { info }, Got::Bytes(b)) => ends(
            r,
            seq![
                ActV::Document(
                    b@,
                    "snapshot-"@ + info.tag@ + ".tar.gz"@,
                    "\u{1f4e6} Snapshot "@ + info.tag@ + " | v"@ + info.version@ + " | "@
                        + decimal::dec(info.users_count as nat) + " users"@,
                    true,
                ),
            ],
        ),
        (Talk::Snapshots, Got::Snapshots(v)) => ends(r, seq![ActV::Send(plain(snaps_text(v@)))]),
        (Talk::RestoreChoose, Got::Snapshots(v)) => ends(
            r,
            seq![
                ActV::Send(
                    if v@.len() == 0 {
                        plain("No snapshots found."@)
                    } else {
                        with_buttons("Select a snapshot to restore:"@, snap_buttons(v@))
                    },
                ),
            ],
        ),
        (Talk::Restore { tag }, Got::Done) => ends(
            r,
            seq![
                ActV::Send(
                    plain(
                        "\u{2705} Restored from snapshot ["@ + tag@ + "]. Container restarted."@,
                    ),
                ),
            ],
        ),
        (_, Got::Failed(e)) => ends(r, seq![ActV::Send(plain(error_said(e.text())))]),
        _ => true,
    }
}

fn next_snapshot(t: Talk, got: Got) -> (r: Talk)
    requires
        t is Snapshot || t is SnapshotPack || t is Snapshots || t is RestoreChoose || t is Restore,
        work::fits(t.wants(), got),
    ensures
        snapshot_after(t, got, r),
{
    match (t, got) {
        (Talk::Snapshot, Got::Snapshot(info)) => Talk::SnapshotPack { info },
        (Talk::SnapshotPack { info }, Got::Bytes(bytes)) => {
            let name = cat3("snapshot-", &info.tag, ".tar.gz");
            let mut caption = cat5(
                "\u{1f4e6} Snapshot ",
                &info.tag,
                " | v",
                &info.version,
                " | ",
            );
            caption.append(&u64_text(info.users_count as u64));
            caption.append(" users");
            Talk::Done { acts: one_act(Act::Document { bytes, name, caption, told: true }) }
        },
        (Talk::Snapshots, Got::Snapshots(v)) => said(plain_note(list_snaps(&v))),
        (Talk::RestoreChoose, Got::Snapshots(v)) => if v.len() == 0 {
            said(plain_note("No snapshots found.".to_owned()))
        } else {
            said(
                button_note("Select a snapshot to restore:".to_owned(), snap_keyboard(&v)),
            )
        },
        (Talk::Restore { tag }, Got::Done) => said(
            plain_note(
                cat3("\u{2705} Restored from snapshot [", &tag, "]. Container restarted."),
            ),
        ),
        (t, Got::Failed(e)) => said(plain_note(error_text(&e))),
        (t, _) => t,
    }
}

// ---- upgrades ----

/// The question whether to upgrade.
pub open spec fn upgrade_question(version: Seq<char>, latest: Seq<char>) -> Seq<char> {
    "\u{26a0}\u{fe0f} Upgrade Xray v"@ + version + " \u{2192} v"@ + latest
        + "?\n\nThis will restart the container and briefly drop all VPN connections.\nA snapshot will be created automatically before upgrading."@
}

/// That the upgrade is done.
pub open spec fn upgraded(u: UpgradeResult) -> Seq<char> {
    "\u{2705} Upgraded! v"@ + u.old_version@ + " \u{2192} v"@ + u.new_version@ + "\nSnapshot: "@
        + u.snapshot_tag@
}

/// Upgrading goes on. A backup that cannot be sent does not stop it.
pub open spec fn upgrade_after(t: Talk, got: Got, r: Talk) -> bool {
    match (t, got) {
        (Talk::UpgradeCheck, Got::Info(info)) => r == (Talk::UpgradeNewest {
            version: info.version,
        }),
        (Talk::UpgradeNewest { version }, Got::Text(latest)) => ends(
            r,
            seq![
                ActV::Send(
                    unneeded(
                        if latest@ == version@ {
                            plain(
                                "\u{2705} Already on latest version v"@ + latest@
                                    + ". Nothing to do."@,
                            )
                        } else {
                            with_buttons(
                                upgrade_question(version@, latest@),
                                keyboards::upgrade_buttons(),
                            )
                        },
                    ),
                ),
            ],
        ),
        (Talk::Upgrade, Got::Upgraded(result)) => r == (Talk::UpgradePack { result }),
        (Talk::UpgradePack { result }, Got::Bytes(b)) => ends(
            r,
            seq![
                ActV::Document(
                    b@,
                    "pre-upgrade-"@ + result.snapshot_tag@ + ".tar.gz"@,
                    "\u{1f4e6} Pre-upgrade backup (v"@ + result.old_version@ + ")"@,
                    false,
                ),
                ActV::Send(unneeded(plain(upgraded(result)))),
            ],
        ),
        (Talk::UpgradePack { result }, Got::Failed(e)) => ends(
            r,
            seq![
                ActV::Send(unneeded(plain("Warning: could not pack backup: "@ + e.text()))),
                ActV::Send(unneeded(plain(upgraded(result)))),
            ],
        ),
        (_, Got::Failed(e)) => ends(r, seq![ActV::Send(plain(error_said(e.text())))]),
        _ => true,
    }
}

fn upgraded_text(u: &UpgradeResult) -> (r: String)
    ensures
        r@ == upgraded(*u),
{
    let mut s = cat5(
        "\u{2705} Upgraded! v",
        &u.old_version,
        " \u{2192} v",
        &u.new_version,
        "\nSnapshot: ",
    );
    s.append(&u.snapshot_tag);
    s
}

fn next_upgrade(t: Talk, got: Got) -> (r: Talk)
    requires
        t is UpgradeCheck || t is UpgradeNewest || t is Upgrade || t is UpgradePack,
        work::fits(t.wants(), got),
    ensures
        upgrade_after(t, got, r),
{
    match (t, got) {
        (Talk::UpgradeCheck, Got::Info(info)) => Talk::UpgradeNewest { version: info.version },
        (Talk::UpgradeNewest { version }, Got::Text(latest)) => {
            if same(&latest, &version) {
                return said(
                    unneeded_note(
                        cat3(
                            "\u{2705} Already on latest version v",
                            &latest,
                            ". Nothing to do.",
                        ),
                    ),
                );
            }
            let text = cat5(
                "\u{26a0}\u{fe0f} Upgrade Xray v",
                &version,
                " \u{2192} v",
                &latest,
                "?\n\nThis will restart the container and briefly drop all VPN connections.\nA snapshot will be created automatically before upgrading.",
            );
            let mut note = button_note(text, upgrade_keyboard());
            note.needed = false;
            said(note)
        },
        (Talk::Upgrade, Got::Upgraded(result)) => Talk::UpgradePack { result },
        (Talk::UpgradePack { result }, Got::Bytes(bytes)) => {
            let name = cat3("pre-upgrade-", &result.snapshot_tag, ".tar.gz");
            let caption = cat3("\u{1f4e6} Pre-upgrade backup (v", &result.old_version, ")");
            let mut acts = one_act(Act::Document { bytes, name, caption, told: false });
            push_act(&mut acts, Act::Send(unneeded_note(upgraded_text(&result))));
            assert(act_views(acts@) =~= seq![
                ActV::Document(bytes@, name@, caption@, false),
                ActV::Send(unneeded(plain(upgraded(result)))),
            ]);
            Talk::Done { acts }
        },
        (Talk::UpgradePack { result }, Got::Failed(e)) => {
            let warning = cat2("Warning: could not pack backup: ", e.message());
            let mut acts = one_act(Act::Send(unneeded_note(warning)));
            push_act(&mut acts, Act::Send(unneeded_note(upgraded_text(&result))));
            assert(act_views(acts@) =~= seq![
                ActV::Send(unneeded(plain(warning@))),
                ActV::Send(unneeded(plain(upgraded(result)))),
            ]);
            Talk::Done { acts }
        },
        (t, Got::Failed(e)) => said(plain_note(error_text(&e))),
        (t, _) => t,
    }
}

/// How a conversation goes on with what it needed.
pub open spec fn after(t: Talk, got: Got, r: Talk) -> bool {
    match t {
        Talk::Users { .. } => users_after(t, got, r),
        Talk::UsersTraffic { .. } => users_after(t, got, r),
        Talk::UsersBridge { .. } => users_after(t, got, r),
        Talk::Status { .. } => status_after(t, got, r),
        Talk::StatusUsers { .. } => status_after(t, got, r),
        Talk::StatusOnline { .. } => status_after(t, got, r),
        Talk::StatusUptime { .. } => status_after(t, got, r),
        Talk::StatusLatest { .. } => status_after(t, got, r),
        Talk::StatusHealth { .. } => status_after(t, got, r),
        Talk::Add { .. } => add_after(t, got, r),
        Talk::AddBridgeUrl { .. } => add_after(t, got, r),
        Talk::AddDirectUrl { .. } => add_after(t, got, r),
        Talk::AddRegister { .. } => add_after(t, got, r),
        Talk::Choose { .. } => delete_after(t, got, r),
        Talk::Prompt { .. } => delete_after(t, got, r),
        Talk::Delete { .. } => delete_after(t, got, r),
        Talk::DeleteRemove { .. } => delete_after(t, got, r),
        Talk::DeleteUnregister { .. } => delete_after(t, got, r),
        Talk::Config { .. } => config_after(t, got, r),
        Talk::ConfigBridgeUrl { .. } => config_after(t, got, r),
        Talk::ConfigDirectUrl { .. } => config_after(t, got, r),
        Talk::Qr { .. } => qr_after(t, got, r),
        Talk::QrBridgeUrl { .. } => qr_after(t, got, r),
        Talk::QrDirectUrl { .. } => qr_after(t, got, r),
        Talk::QrBridge { .. } => qr_after(t, got, r),
        Talk::QrDirect { .. } => qr_after(t, got, r),
        Talk::Snapshot => snapshot_after(t, got, r),
        Talk::SnapshotPack { .. } => snapshot_after(t, got, r),
        Talk::Snapshots => snapshot_after(t, got, r),
        Talk::RestoreChoose => snapshot_after(t, got, r),
        Talk::Restore { .. } => snapshot_after(t, got, r),
        Talk::UpgradeCheck => upgrade_after(t, got, r),
        Talk::UpgradeNewest { .. } => upgrade_after(t, got, r),
        Talk::Upgrade => upgrade_after(t, got, r),
        Talk::UpgradePack { .. } => upgrade_after(t, got, r),
        Talk::Done { .. } => r == t,
    }
}

impl Talk {
    /// Goes on with what the conversation needed.
    pub fn next(self, got: Got) -> (r: Talk)
        requires
            work::fits(self.wants(), got),
        ensures
            after(self, got, r),
    {
        match self {
            Talk::Users { .. } => next_users(self, got),
            Talk::UsersTraffic { .. } => next_users(self, got),
            Talk::UsersBridge { .. } => next_users(self, got),
            Talk::Status { .. } => next_status(self, got),
            Talk::StatusUsers { .. } => next_status(self, got),
            Talk::StatusOnline { .. } => next_status(self, got),
            Talk::StatusUptime { .. } => next_status(self, got),
            Talk::StatusLatest { .. } => next_status(self, got),
            Talk::StatusHealth { .. } => next_status(self, got),
            Talk::Add { .. } => next_add(self, got),
            Talk::AddBridgeUrl { .. } => next_add(self, got),
            Talk::AddDirectUrl { .. } => next_add(self, got),
            Talk::AddRegister { .. } => next_add(self, got),
            Talk::Choose { .. } => next_delete(self, got),
            Talk::Prompt { .. } => next_delete(self, got),
            Talk::Delete { .. } => next_delete(self, got),
            Talk::DeleteRemove { .. } => next_delete(self, got),
            Talk::DeleteUnregister { .. } => next_delete(self, got),
            Talk::Config { .. } => next_config(self, got),
            Talk::ConfigBridgeUrl { .. } => next_config(self, got),
            Talk::ConfigDirectUrl { .. } => next_config(self, got),
            Talk::Qr { .. } => next_qr(self, got),
            Talk::QrBridgeUrl { .. } => next_qr(self, got),
            Talk::QrDirectUrl { .. } => next_qr(self, got),
            Talk::QrBridge { .. } => next_qr(self, got),
            Talk::QrDirect { .. } => next_qr(self, got),
            Talk::Snapshot => next_snapshot(self, got),
            Talk::SnapshotPack { .. } => next_snapshot(self, got),
            Talk::Snapshots => next_snapshot(self, got),
            Talk::RestoreChoose => next_snapshot(self, got),
            Talk::Restore { .. } => next_snapshot(self, got),
            Talk::UpgradeCheck => next_upgrade(self, got),
            Talk::UpgradeNewest { .. } => next_upgrade(self, got),
            Talk::Upgrade => next_upgrade(self, got),
            Talk::UpgradePack { .. } => next_upgrade(self, got),
            Talk::Done { .. } => self,
        }
    }
}

} // verus!
