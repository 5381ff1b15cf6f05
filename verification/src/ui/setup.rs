//! The setup form: where to connect to.

use crate::config;
use crate::config::{Config, ConfigV, DEFAULT_SSH_PORT};
use crate::decimal;
use crate::decimal::{parse_max, u64_text};
use crate::text;
use crate::text::{char_is_digit, chars_of, string_of};
use crate::ui::keys::{KeyCode, KeyEvent};
use vstd::prelude::*;

verus! {

/// A field or a button of the form.
#[derive(Debug, Clone, Copy, PartialEq, Eq, Structural)]
pub enum SetupField {
    SshHost,
    Host,
    Port,
    User,
    KeyPath,
    Container,
    TestConnection,
    SaveAndStart,
}

/// The field at a place of the form.
pub open spec fn field_at(i: int) -> SetupField {
    if i == 0 {
        SetupField::SshHost
    } else if i == 1 {
        SetupField::Host
    } else if i == 2 {
        SetupField::Port
    } else if i == 3 {
        SetupField::User
    } else if i == 4 {
        SetupField::KeyPath
    } else if i == 5 {
        SetupField::Container
    } else if i == 6 {
        SetupField::TestConnection
    } else {
        SetupField::SaveAndStart
    }
}

/// The number of fields and buttons.
pub const FIELDS: usize = 8;

impl SetupField {
    /// The fields and buttons in the order of the form.
    pub fn all() -> (r: Vec<SetupField>)
        ensures
            r@ == Seq::new(8, |i: int| field_at(i)),
    {
        let mut v: Vec<SetupField> = Vec::new();
        v.push(SetupField::SshHost);
        v.push(SetupField::Host);
        v.push(SetupField::Port);
        v.push(SetupField::User);
        v.push(SetupField::KeyPath);
        v.push(SetupField::Container);
        v.push(SetupField::TestConnection);
        v.push(SetupField::SaveAndStart);
        assert(v@ =~= Seq::new(8, |i: int| field_at(i)));
        v
    }

    /// What is written beside the field.
    pub fn label(&self) -> (r: &'static str)
        ensures
            r@ == (match *self {
                SetupField::SshHost => "SSH Config Host"@,
                SetupField::Host => "Host"@,
                SetupField::Port => "Port"@,
                SetupField::User => "User"@,
                SetupField::KeyPath => "SSH Key Path"@,
                SetupField::Container => "Container Name"@,
                SetupField::TestConnection => "[ Test Connection ]"@,
                SetupField::SaveAndStart => "[ Save & Start ]"@,
            }),
    {
        match self {
            SetupField::SshHost => "SSH Config Host",
            SetupField::Host => "Host",
            SetupField::Port => "Port",
            SetupField::User => "User",
            SetupField::KeyPath => "SSH Key Path",
            SetupField::Container => "Container Name",
            SetupField::TestConnection => "[ Test Connection ]",
            SetupField::SaveAndStart => "[ Save & Start ]",
        }
    }

    /// What the field is for.
    pub fn hint(&self) -> (r: &'static str)
        ensures
            r@ == (match *self {
                SetupField::SshHost =>
                    "SSH config alias (e.g. vps-vpn). If set, overrides host/port/user/key."@,
                SetupField::Host => "Server IP or hostname (e.g. 203.0.113.42)"@,
                SetupField::Port => "SSH port (default: 22)"@,
                SetupField::User => "SSH user (default: root)"@,
                SetupField::KeyPath => "Path to SSH private key (e.g. ~/.ssh/id_ed25519)"@,
                SetupField::Container => "Docker container name (default: amnezia-xray)"@,
                SetupField::TestConnection => "Press Enter to test SSH connection"@,
                SetupField::SaveAndStart => "Press Enter to save config and start dashboard"@,
            }),
    {
        match self {
            SetupField::SshHost => {
                "SSH config alias (e.g. vps-vpn). If set, overrides host/port/user/key."
            },
            SetupField::Host => "Server IP or hostname (e.g. 203.0.113.42)",
            SetupField::Port => "SSH port (default: 22)",
            SetupField::User => "SSH user (default: root)",
            SetupField::KeyPath => "Path to SSH private key (e.g. ~/.ssh/id_ed25519)",
            SetupField::Container => "Docker container name (default: amnezia-xray)",
            SetupField::TestConnection => "Press Enter to test SSH connection",
            SetupField::SaveAndStart => "Press Enter to save config and start dashboard",
        }
    }

    /// Whether it is a button rather than a field.
    pub fn is_button(&self) -> (r: bool)
        ensures
            r == (*self is TestConnection || *self is SaveAndStart),
    {
        matches!(self, SetupField::TestConnection | SetupField::SaveAndStart)
    }
}

/// What came of the last test of the connection.
#[derive(Debug, Clone)]
pub enum TestResult {
    Untested,
    Testing,
    Success(String),
    Error(String),
}

pub enum TestV {
    Untested,
    Testing,
    Success(Seq<char>),
    Error(Seq<char>),
}

impl View for TestResult {
    type V = TestV;

    open spec fn view(&self) -> TestV {
        match self {
            TestResult::Untested => TestV::Untested,
            TestResult::Testing => TestV::Testing,
            TestResult::Success(m) => TestV::Success(m@),
            TestResult::Error(m) => TestV::Error(m@),
        }
    }
}

/// The form.
#[derive(Debug, Clone)]
pub struct SetupState {
    pub ssh_host: String,
    pub host: String,
    pub port: String,
    pub user: String,
    pub key_path: String,
    pub container: String,
    pub focused: usize,
    pub test_result: TestResult,
    pub save_requested: bool,
    pub test_requested: bool,
}

pub struct SetupV {
    pub ssh_host: Seq<char>,
    pub host: Seq<char>,
    pub port: Seq<char>,
    pub user: Seq<char>,
    pub key_path: Seq<char>,
    pub container: Seq<char>,
    pub focused: int,
    pub test_result: TestV,
    pub save_requested: bool,
    pub test_requested: bool,
}

impl View for SetupState {
    type V = SetupV;

    open spec fn view(&self) -> SetupV {
        SetupV {
            ssh_host: self.ssh_host@,
            host: self.host@,
            port: self.port@,
            user: self.user@,
            key_path: self.key_path@,
            container: self.container@,
            focused: self.focused as int,
            test_result: self.test_result@,
            save_requested: self.save_requested,
            test_requested: self.test_requested,
        }
    }
}

/// The form as it is when nothing was configured.
pub open spec fn default_setup() -> SetupV {
    SetupV {
        ssh_host: Seq::empty(),
        host: Seq::empty(),
        port: "22"@,
        user: "root"@,
        key_path: Seq::empty(),
        container: "amnezia-xray"@,
        focused: 0,
        test_result: TestV::Untested,
        save_requested: false,
        test_requested: false,
    }
}

/// The text, or none where there is none.
pub open spec fn or_empty(s: Option<Seq<char>>) -> Seq<char> {
    match s {
        Some(x) => x,
        None => Seq::empty(),
    }
}

/// The form filled in from a configuration.
pub open spec fn setup_from(c: ConfigV) -> SetupV {
    SetupV {
        ssh_host: or_empty(c.ssh_host),
        host: or_empty(c.host),
        port: decimal::dec(c.port as nat),
        user: c.user,
        key_path: or_empty(c.key_path),
        container: c.container,
        ..default_setup()
    }
}

/// Nothing for an empty text.
pub open spec fn non_empty(s: Seq<char>) -> Option<Seq<char>> {
    if s.len() == 0 {
        None
    } else {
        Some(s)
    }
}

/// The default for an empty text.
pub open spec fn non_empty_or(s: Seq<char>, d: Seq<char>) -> Seq<char> {
    if s.len() == 0 {
        d
    } else {
        s
    }
}

/// The configuration that a form gives: an empty field counts as not given, and a port that is none
/// as the default one.
pub open spec fn config_of(s: SetupV) -> ConfigV {
    ConfigV {
        host: non_empty(s.host),
        port: match decimal::parse_unsigned(s.port, 65535) {
            Some(n) => n as u16,
            None => 22,
        },
        user: non_empty_or(s.user, "root"@),
        key_path: non_empty(s.key_path),
        ssh_host: non_empty(s.ssh_host),
        container: non_empty_or(s.container, "amnezia-xray"@),
        telegram_token: None,
        telegram_admin_chat_id: None,
        bot_image: Seq::empty(),
        snapshot_dir: None,
        bridge_agent_url: None,
    }
}

/// The text of a field; a button has none.
pub open spec fn value_of(s: SetupV, f: SetupField) -> Option<Seq<char>> {
    match f {
        SetupField::SshHost => Some(s.ssh_host),
        SetupField::Host => Some(s.host),
        SetupField::Port => Some(s.port),
        SetupField::User => Some(s.user),
        SetupField::KeyPath => Some(s.key_path),
        SetupField::Container => Some(s.container),
        _ => None,
    }
}

/// The form with another text in a field.
pub open spec fn with_value(s: SetupV, f: SetupField, t: Seq<char>) -> SetupV {
    match f {
        SetupField::SshHost => SetupV { ssh_host: t, ..s },
        SetupField::Host => SetupV { host: t, ..s },
        SetupField::Port => SetupV { port: t, ..s },
        SetupField::User => SetupV { user: t, ..s },
        SetupField::KeyPath => SetupV { key_path: t, ..s },
        SetupField::Container => SetupV { container: t, ..s },
        _ => s,
    }
}

/// A field takes a character: a port takes digits, and a container what its name can hold.
pub open spec fn takes(f: SetupField, c: char) -> bool {
    match f {
        SetupField::Port => text::is_digit(c),
        SetupField::Container => config::is_alphanumeric(c) || c == '_' || c == '.' || c == '-',
        _ => true,
    }
}

/// The form with the next field in focus.
pub open spec fn next_focus(s: SetupV) -> SetupV {
    SetupV { focused: (s.focused + 1) % 8, ..s }
}

/// The form with the previous field in focus.
pub open spec fn prev_focus(s: SetupV) -> SetupV {
    SetupV {
        focused: if s.focused == 0 {
            7
        } else {
            s.focused - 1
        },
        ..s
    }
}

/// The form after a key, and whether the key was for it. An edit makes the result of an earlier test
/// void.
pub open spec fn setup_after(s: SetupV, key: KeyEvent) -> (SetupV, bool) {
    let f = field_at(s.focused);
    match key.code {
        KeyCode::Tab => (
            if key.shift {
                prev_focus(s)
            } else {
                next_focus(s)
            },
            true,
        ),
        KeyCode::BackTab => (prev_focus(s), true),
        KeyCode::Up => (prev_focus(s), true),
        KeyCode::Down => (next_focus(s), true),
        KeyCode::Enter => (
            match f {
                SetupField::TestConnection => SetupV { test_requested: true, ..s },
                SetupField::SaveAndStart => SetupV { save_requested: true, ..s },
                _ => next_focus(s),
            },
            true,
        ),
        KeyCode::Char(c) => match value_of(s, f) {
            Some(t) => (
                if takes(f, c) {
                    SetupV { test_result: TestV::Untested, ..with_value(s, f, t.push(c)) }
                } else {
                    s
                },
                true,
            ),
            None => (s, false),
        },
        KeyCode::Backspace => match value_of(s, f) {
            Some(t) => (
                SetupV {
                    test_result: TestV::Untested,
                    ..with_value(
                        s,
                        f,
                        if t.len() > 0 {
                            t.drop_last()
                        } else {
                            t
                        },
                    )
                },
                true,
            ),
            None => (s, false),
        },
        _ => (s, false),
    }
}

impl Default for SetupState {
    fn default() -> (r: SetupState)
        ensures
            r@ == default_setup(),
            r.wf(),
    {
        SetupState {
            ssh_host: String::new(),
            host: String::new(),
            port: "22".to_owned(),
            user: "root".to_owned(),
            key_path: String::new(),
            container: "amnezia-xray".to_owned(),
            focused: 0,
            test_result: TestResult::Untested,
            save_requested: false,
            test_requested: false,
        }
    }
}

fn text_of(s: &Option<String>) -> (r: String)
    ensures
        r@ == or_empty(text::opt_text(*s)),
{
    match s {
        Some(x) => x.clone(),
        None => String::new(),
    }
}

fn some_text(s: &String) -> (r: Option<String>)
    ensures
        text::opt_text(r) == non_empty(s@),
{
    if s.as_str().is_empty() {
        None
    } else {
        Some(s.clone())
    }
}

fn text_or(s: &String, d: &str) -> (r: String)
    ensures
        r@ == non_empty_or(s@, d@),
{
    if s.as_str().is_empty() {
        d.to_owned()
    } else {
        s.clone()
    }
}

impl SetupState {
    /// One of the fields is in focus.
    pub open spec fn wf(&self) -> bool {
        self.focused < 8
    }

    /// The form filled in from a configuration.
    pub fn from_config(config: &Config) -> (r: SetupState)
        ensures
            r@ == setup_from(config@),
            r.wf(),
    {
        SetupState {
            ssh_host: text_of(&config.ssh_host),
            host: text_of(&config.host),
            port: u64_text(config.port as u64),
            user: config.user.clone(),
            key_path: text_of(&config.key_path),
            container: config.container.clone(),
            focused: 0,
            test_result: TestResult::Untested,
            save_requested: false,
            test_requested: false,
        }
    }

    /// The configuration that the form gives.
    pub fn to_config(&self) -> (r: Config)
        ensures
            r@ == config_of(self@),
    {
        Config {
            host: some_text(&self.host),
            port: match parse_max(&self.port, 65535) {
                Some(n) => n as u16,
                None => DEFAULT_SSH_PORT,
            },
            user: text_or(&self.user, "root"),
            key_path: some_text(&self.key_path),
            ssh_host: some_text(&self.ssh_host),
            container: text_or(&self.container, "amnezia-xray"),
            telegram_token: None,
            telegram_admin_chat_id: None,
            bot_image: String::new(),
            snapshot_dir: None,
            bridge_agent_url: None,
        }
    }

    /// The field in focus.
    pub fn focused_field(&self) -> (r: SetupField)
        requires
            self.wf(),
        ensures
            r == field_at(self.focused as int),
    {
        match self.focused {
            0 => SetupField::SshHost,
            1 => SetupField::Host,
            2 => SetupField::Port,
            3 => SetupField::User,
            4 => SetupField::KeyPath,
            5 => SetupField::Container,
            6 => SetupField::TestConnection,
            _ => SetupField::SaveAndStart,
        }
    }

    /// Moves the focus on.
    pub fn focus_next(&mut self)
        requires
            old(self).wf(),
        ensures
            final(self)@ == next_focus(old(self)@),
            final(self).wf(),
    {
        self.focused = (self.focused + 1) % FIELDS;
    }

    /// Moves the focus back.
    pub fn focus_prev(&mut self)
        requires
            old(self).wf(),
        ensures
            final(self)@ == prev_focus(old(self)@),
            final(self).wf(),
    {
        if self.focused == 0 {
            self.focused = FIELDS - 1;
        } else {
            self.focused = self.focused - 1;
        }
    }

    /// Whether there is somewhere to connect to.
    pub fn has_connection_info(&self) -> (r: bool)
        ensures
            r == (self@.ssh_host.len() > 0 || self@.host.len() > 0),
    {
        !self.ssh_host.as_str().is_empty() || !self.host.as_str().is_empty()
    }

    /// The text of a field.
    fn value(&self, field: SetupField) -> (r: Option<&String>)
        ensures
            match r {
                Some(t) => value_of(self@, field) == Some(t@),
                None => value_of(self@, field) is None,
            },
    {
        match field {
            SetupField::SshHost => Some(&self.ssh_host),
            SetupField::Host => Some(&self.host),
            SetupField::Port => Some(&self.port),
            SetupField::User => Some(&self.user),
            SetupField::KeyPath => Some(&self.key_path),
            SetupField::Container => Some(&self.container),
            _ => None,
        }
    }

    fn edit(&mut self, field: SetupField, t: String)
        ensures
            final(self)@ == (SetupV {
                test_result: TestV::Untested,
                ..with_value(old(self)@, field, t@)
            }),
    {
        match field {
            SetupField::SshHost => {
                self.ssh_host = t;
            },
            SetupField::Host => {
                self.host = t;
            },
            SetupField::Port => {
                self.port = t;
            },
            SetupField::User => {
                self.user = t;
            },
            SetupField::KeyPath => {
                self.key_path = t;
            },
            SetupField::Container => {
                self.container = t;
            },
            _ => {},
        }
        self.test_result = TestResult::Untested;
    }

    /// Takes a key. Tells whether it was for the form.
    pub fn handle_key(&mut self, key: KeyEvent) -> (r: bool)
        requires
            old(self).wf(),
        ensures
            final(self)@ == setup_after(old(self)@, key).0,
            r == setup_after(old(self)@, key).1,
            final(self).wf(),
    {
        match key.code {
            KeyCode::Tab => {
                if key.shift {
                    self.focus_prev();
                } else {
                    self.focus_next();
                }
                true
            },
            KeyCode::BackTab => {
                self.focus_prev();
                true
            },
            KeyCode::Down => {
                self.focus_next();
                true
            },
            KeyCode::Up => {
                self.focus_prev();
                true
            },
            KeyCode::Enter => {
                match self.focused_field() {
                    SetupField::TestConnection => {
                        self.test_requested = true;
                    },
                    SetupField::SaveAndStart => {
                        self.save_requested = true;
                    },
                    _ => {
                        self.focus_next();
                    },
                }
                true
            },
            KeyCode::Char(c) => {
                let field = self.focused_field();
                let edited: Option<String> = match self.value(field) {
                    Some(t) => {
                        if !field_takes(field, c) {
                            return true;
                        }
                        let mut u = t.clone();
                        u.push(c);
                        Some(u)
                    },
                    None => None,
                };
                match edited {
                    Some(u) => {
                        self.edit(field, u);
                        true
                    },
                    None => false,
                }
            },
            KeyCode::Backspace => {
                let field = self.focused_field();
                let edited: Option<String> = match self.value(field) {
                    Some(t) => Some(without_last(t)),
                    None => None,
                };
                match edited {
                    Some(u) => {
                        self.edit(field, u);
                        true
                    },
                    None => false,
                }
            },
            _ => false,
        }
    }
}

fn field_takes(f: SetupField, c: char) -> (r: bool)
    ensures
        r == takes(f, c),
{
    match f {
        SetupField::Port => char_is_digit(c),
        SetupField::Container => ('A' <= c && c <= 'Z') || ('a' <= c && c <= 'z') || ('0' <= c && c
            <= '9') || c == '_' || c == '.' || c == '-',
        _ => true,
    }
}

/// A text without its last character.
fn without_last(s: &str) -> (r: String)
    ensures
        r@ == (if s@.len() > 0 {
            s@.drop_last()
        } else {
            s@
        }),
{
    let v = chars_of(s);
    if v.len() == 0 {
        return s.to_owned();
    }
    let r = string_of(&v, 0, v.len() - 1);
    assert(r@ =~= s@.drop_last());
    r
}

/// A form that was filled in from a configuration with all its texts gives back what it holds of
/// it: everything but the bot, the snapshots and the bridge.
pub proof fn law_form_gives_config_back(c: ConfigV)
    requires
        c.user.len() > 0,
        c.container.len() > 0,
        c.host matches Some(h) ==> h.len() > 0,
        c.ssh_host matches Some(h) ==> h.len() > 0,
        c.key_path matches Some(k) ==> k.len() > 0,
    ensures
        ({
            let d = config_of(setup_from(c));
            &&& d.host == c.host
            &&& d.port == c.port
            &&& d.user == c.user
            &&& d.key_path == c.key_path
            &&& d.ssh_host == c.ssh_host
            &&& d.container == c.container
        }),
{
    decimal::law_dec_reads_back(c.port as nat, 65535);
}

/// Going on and back leaves the form as it was.
pub proof fn law_focus_goes_round(s: SetupV)
    requires
        0 <= s.focused < 8,
    ensures
        prev_focus(next_focus(s)) == s,
        next_focus(prev_focus(s)) == s,
{
}

/// A character that a field took is what a backspace takes away.
pub proof fn law_backspace_undoes_char(s: SetupV, c: char)
    requires
        0 <= s.focused < 6,
        takes(field_at(s.focused), c),
    ensures
        ({
            let typed = setup_after(
                s,
                KeyEvent { code: KeyCode::Char(c), shift: false, control: false },
            ).0;
            let erased = setup_after(
                typed,
                KeyEvent { code: KeyCode::Backspace, shift: false, control: false },
            ).0;
            erased == (SetupV { test_result: TestV::Untested, ..s })
        }),
{
    let f = field_at(s.focused);
    let t = value_of(s, f)->0;
    assert(t.push(c).drop_last() =~= t);
}

/// Whatever the keys, the port holds digits and the container what its name can hold, if they did.
pub proof fn law_fields_stay_clean(s: SetupV, key: KeyEvent)
    requires
        0 <= s.focused < 8,
        forall|i: int| 0 <= i < s.port.len() ==> takes(SetupField::Port, #[trigger] s.port[i]),
        forall|i: int|
            0 <= i < s.container.len() ==> takes(SetupField::Container, #[trigger] s.container[i]),
    ensures
        ({
            let t = setup_after(s, key).0;
            &&& 0 <= t.focused < 8
            &&& forall|i: int|
                0 <= i < t.port.len() ==> takes(SetupField::Port, #[trigger] t.port[i])
            &&& forall|i: int|
                0 <= i < t.container.len() ==> takes(
                    SetupField::Container,
                    #[trigger] t.container[i],
                )
        }),
{
}

/// **The form gives what stands in its fields**: a field that is empty gives nothing, or what is used
/// where nothing is given; a port that is a number gives that number.
pub proof fn law_form_gives_its_fields(form: SetupState, n: u16, c: Config)
    requires
        call_ensures(SetupState::to_config, (&form,), c),
    ensures
        match c.host {
            Some(h) => h@ == form.host@ && h@.len() > 0,
            None => form.host@.len() == 0,
        },
        match c.ssh_host {
            Some(h) => h@ == form.ssh_host@ && h@.len() > 0,
            None => form.ssh_host@.len() == 0,
        },
        match c.key_path {
            Some(k) => k@ == form.key_path@ && k@.len() > 0,
            None => form.key_path@.len() == 0,
        },
        form.user@.len() > 0 ==> c.user@ == form.user@,
        form.user@.len() == 0 ==> c.user@ == "root"@,
        form.container@.len() > 0 ==> c.container@ == form.container@,
        form.container@.len() == 0 ==> c.container@ == "amnezia-xray"@,
        form.port@ == decimal::dec(n as nat) ==> c.port == n,
        form.port@.len() == 0 ==> c.port == 22,
        c.telegram_token is None && c.telegram_admin_chat_id is None && c.bridge_agent_url is None
            && c.snapshot_dir is None,
{
    decimal::law_dec_reads_back(n as nat, 65535);
    assert(c@ == config_of(form@));
    assert(c@.host == text::opt_text(c.host) && c@.ssh_host == text::opt_text(c.ssh_host)
        && c@.key_path == text::opt_text(c.key_path));
}

/// **A form shows the configuration, each value in its own field.**
pub proof fn law_form_shows_the_configuration(c: Config, form: SetupState)
    requires
        call_ensures(SetupState::from_config, (&c,), form),
    ensures
        match c.host {
            Some(h) => form.host@ == h@,
            None => form.host@.len() == 0,
        },
        match c.ssh_host {
            Some(h) => form.ssh_host@ == h@,
            None => form.ssh_host@.len() == 0,
        },
        match c.key_path {
            Some(k) => form.key_path@ == k@,
            None => form.key_path@.len() == 0,
        },
        form.port@ == decimal::dec(c.port as nat),
        form.user@ == c.user@,
        form.container@ == c.container@,
        form.focused == 0 && !form.save_requested && !form.test_requested && form.test_result
            is Untested,
{
    assert(form@ == setup_from(c@));
}

/// **A key edits the field in focus and no other**: a character comes behind its text, and a backspace
/// takes the last one away. The result of an earlier test is void then.
pub proof fn law_keys_edit_the_field_in_focus(s: SetupV, c: char, shift: bool)
    ensures
        ({
            let t = setup_after(s, KeyEvent { code: KeyCode::Char(c), shift, control: false }).0;
            &&& t.focused == s.focused
            &&& s.focused == 0 ==> t == (SetupV {
                ssh_host: s.ssh_host.push(c),
                test_result: TestV::Untested,
                ..s
            })
            &&& s.focused == 1 ==> t == (SetupV {
                host: s.host.push(c),
                test_result: TestV::Untested,
                ..s
            })
            &&& s.focused == 2 ==> t == (if '0' <= c <= '9' {
                SetupV { port: s.port.push(c), test_result: TestV::Untested, ..s }
            } else {
                s
            })
            &&& s.focused == 3 ==> t == (SetupV {
                user: s.user.push(c),
                test_result: TestV::Untested,
                ..s
            })
            &&& s.focused == 4 ==> t == (SetupV {
                key_path: s.key_path.push(c),
                test_result: TestV::Untested,
                ..s
            })
            &&& s.focused == 5 ==> t == (if 'A' <= c <= 'Z' || 'a' <= c <= 'z' || '0' <= c <= '9'
                || c == '_' || c == '.' || c == '-' {
                SetupV { container: s.container.push(c), test_result: TestV::Untested, ..s }
            } else {
                s
            })
            &&& s.focused == 6 || s.focused == 7 ==> t == s
        }),
{
}

/// **Keys move through the fields in order**, and Enter does what the button in focus says.
pub proof fn law_keys_move_through_the_fields(s: SetupV, code: KeyCode)
    requires
        0 <= s.focused < 8,
    ensures
        ({
            let t = setup_after(s, KeyEvent { code, shift: false, control: false }).0;
            &&& code == KeyCode::Tab || code == KeyCode::Down ==> t.focused == (if s.focused == 7 {
                0int
            } else {
                s.focused + 1
            }) && t.save_requested == s.save_requested && t.test_requested == s.test_requested
            &&& code == KeyCode::BackTab || code == KeyCode::Up ==> t.focused == (if s.focused
                == 0 {
                7int
            } else {
                s.focused - 1
            })
            &&& code == KeyCode::Enter && s.focused == 6 ==> t == (SetupV {
                test_requested: true,
                ..s
            })
            &&& code == KeyCode::Enter && s.focused == 7 ==> t == (SetupV {
                save_requested: true,
                ..s
            })
            &&& code == KeyCode::Enter && s.focused < 6 ==> t == (SetupV {
                focused: s.focused + 1,
                ..s
            })
        }),
{
}

/// **Each place of the form is what is written beside it.**
pub proof fn law_fields_are_labelled(form: SetupState, f: SetupField, label: &'static str, b: bool)
    requires
        form.wf(),
        call_ensures(SetupState::focused_field, (&form,), f),
        call_ensures(SetupField::label, (&f,), label),
        call_ensures(SetupField::is_button, (&f,), b),
    ensures
        form.focused == 0 ==> label@ == "SSH Config Host"@,
        form.focused == 1 ==> label@ == "Host"@,
        form.focused == 2 ==> label@ == "Port"@,
        form.focused == 3 ==> label@ == "User"@,
        form.focused == 4 ==> label@ == "SSH Key Path"@,
        form.focused == 5 ==> label@ == "Container Name"@,
        form.focused == 6 ==> label@ == "[ Test Connection ]"@,
        form.focused == 7 ==> label@ == "[ Save & Start ]"@,
        b == (form.focused >= 6),
{
}

/// **Each field is explained.**
pub proof fn law_fields_are_explained(form: SetupState, f: SetupField, hint: &'static str)
    requires
        form.wf(),
        call_ensures(SetupState::focused_field, (&form,), f),
        call_ensures(SetupField::hint, (&f,), hint),
    ensures
        form.focused == 0 ==> hint@
            == "SSH config alias (e.g. vps-vpn). If set, overrides host/port/user/key."@,
        form.focused == 1 ==> hint@ == "Server IP or hostname (e.g. 203.0.113.42)"@,
        form.focused == 2 ==> hint@ == "SSH port (default: 22)"@,
        form.focused == 3 ==> hint@ == "SSH user (default: root)"@,
        form.focused == 4 ==> hint@ == "Path to SSH private key (e.g. ~/.ssh/id_ed25519)"@,
        form.focused == 5 ==> hint@ == "Docker container name (default: amnezia-xray)"@,
        form.focused == 6 ==> hint@ == "Press Enter to test SSH connection"@,
        form.focused == 7 ==> hint@ == "Press Enter to save config and start dashboard"@,
{
}

/// **The fields stand in the order in which they are moved through.**
pub proof fn law_fields_are_listed(v: Vec<SetupField>, form: SetupState, f: SetupField)
    requires
        form.wf(),
        call_ensures(SetupField::all, (), v),
        call_ensures(SetupState::focused_field, (&form,), f),
    ensures
        v@.len() == 8,
        v@[form.focused as int] == f,
{
}

} // verus!
