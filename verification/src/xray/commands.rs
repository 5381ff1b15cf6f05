//! The shell commands that the server is driven with.

use crate::error;
use crate::error::AppError;
use crate::text;
use crate::text::{chars_of, char_is_digit, lines_of, replace_char, strip_prefix, strip_suffix, trim};
use vstd::prelude::*;

verus! {

/// Where the server listens for API calls, inside the container.
pub const API_ADDR: &'static str = "127.0.0.1:8080";

/// The tag of the VLESS inbound in API calls.
pub const VLESS_INBOUND_TAG: &'static str = "vless-in";

/// The server's configuration, inside the container.
pub const SERVER_CONFIG_PATH: &'static str = "/opt/amnezia/xray/server.json";

/// The table of the clients' names, inside the container.
pub const CLIENTS_TABLE_PATH: &'static str = "/opt/amnezia/xray/clientsTable";

// ---- quoting ----

/// A text as one word of the shell: in single quotes, with each single quote in it left out of the
/// quotes and escaped.
pub open spec fn quoted(s: Seq<char>) -> Seq<char> {
    "'"@ + text::replaced(s, '\'', "'\\''"@) + "'"@
}

/// A text as one word of the shell.
pub fn shell_quote(s: &str) -> (r: String)
    ensures
        r@ == quoted(s@),
{
    let mut r = "'".to_owned();
    r.append(&replace_char(s, '\'', "'\\''"));
    r.append("'");
    r
}

/// How a POSIX shell reads a word that consists of single-quoted stretches and of escaped
/// characters: outside of quotes.
pub open spec fn word_outside(s: Seq<char>) -> Option<Seq<char>>
    decreases s.len(),
{
    if s.len() == 0 {
        Some(Seq::empty())
    } else if s[0] == '\'' {
        word_inside(s.skip(1))
    } else if s[0] == '\\' && s.len() >= 2 {
        match word_outside(s.skip(2)) {
            Some(w) => Some(seq![s[1]] + w),
            None => None,
        }
    } else {
        None
    }
}

/// How a POSIX shell reads the rest of such a word inside of single quotes.
pub open spec fn word_inside(s: Seq<char>) -> Option<Seq<char>>
    decreases s.len(),
{
    if s.len() == 0 {
        None
    } else if s[0] == '\'' {
        word_outside(s.skip(1))
    } else {
        match word_inside(s.skip(1)) {
            Some(w) => Some(seq![s[0]] + w),
            None => None,
        }
    }
}

proof fn lemma_replaced_concat(a: Seq<char>, b: Seq<char>, x: char, w: Seq<char>)
    ensures
        text::replaced(a + b, x, w) == text::replaced(a, x, w) + text::replaced(b, x, w),
    decreases b.len(),
{
    if b.len() == 0 {
        assert(a + b =~= a);
        assert(text::replaced(a, x, w) + text::replaced(b, x, w) =~= text::replaced(a, x, w));
    } else {
        assert((a + b).drop_last() =~= a + b.drop_last());
        assert((a + b).last() == b.last());
        lemma_replaced_concat(a, b.drop_last(), x, w);
        assert(text::replaced(a + b, x, w) =~= text::replaced(a, x, w) + text::replaced(b, x, w));
    }
}

proof fn lemma_inside(s: Seq<char>)
    ensures
        word_inside(text::replaced(s, '\'', "'\\''"@) + "'"@) == Some(s),
    decreases s.len(),
{
    reveal_strlit("'");
    reveal_strlit("'\\''");
    let w = "'\\''"@;
    let q = "'"@;
    if s.len() == 0 {
        let t = text::replaced(s, '\'', w) + q;
        assert(t =~= seq!['\'']);
        assert(t.skip(1) =~= Seq::empty());
        assert(s =~= Seq::empty());
        assert(word_outside(t.skip(1)) == Some(Seq::<char>::empty()));
    } else {
        let head = seq![s[0]];
        let rest = s.skip(1);
        assert(s =~= head + rest);
        lemma_replaced_concat(head, rest, '\'', w);
        lemma_inside(rest);
        assert(head.drop_last() =~= Seq::empty());
        assert(text::replaced(head.drop_last(), '\'', w) =~= Seq::empty());
        let tail = text::replaced(rest, '\'', w) + q;
        let t = text::replaced(s, '\'', w) + q;
        if s[0] == '\'' {
            assert(text::replaced(head, '\'', w) =~= w);
            assert(t =~= w + tail);
            let t1 = t.skip(1);
            assert(t1[0] == '\\' && t1[1] == '\'');
            assert(t1.skip(2) =~= seq!['\''] + tail);
            assert(t1.skip(2).skip(1) =~= tail);
            assert(t1.skip(2)[0] == '\'');
            assert(word_outside(t1.skip(2)) == word_inside(tail));
            assert(word_outside(t1) == Some(seq!['\''] + rest));
            assert(t[0] == '\'');
        } else {
            assert(text::replaced(head, '\'', w) =~= head);
            assert(t =~= head + tail);
            assert(t.skip(1) =~= tail);
            assert(t[0] == s[0]);
            assert(word_inside(t) == Some(head + rest));
        }
    }
}

/// Whatever a text holds, the shell reads its quoted form as one word that is the text itself.
pub proof fn law_quoting_is_safe(s: Seq<char>)
    ensures
        word_outside(quoted(s)) == Some(s),
{
    reveal_strlit("'");
    lemma_inside(s);
    let t = quoted(s);
    assert(t[0] == '\'');
    assert(t.skip(1) =~= text::replaced(s, '\'', "'\\''"@) + "'"@);
}

// ---- backups ----

/// Build the command that copies both files to their `.bak`.
pub fn build_backup_cmd() -> (r: String)
    ensures
        r@ == "sh -c 'cp "@ + SERVER_CONFIG_PATH@ + " "@ + SERVER_CONFIG_PATH@ + ".bak && cp "@
            + CLIENTS_TABLE_PATH@ + " "@ + CLIENTS_TABLE_PATH@ + ".bak'"@,
{
    let mut s = "sh -c 'cp ".to_owned();
    s.append(SERVER_CONFIG_PATH);
    s.append(" ");
    s.append(SERVER_CONFIG_PATH);
    s.append(".bak && cp ");
    s.append(CLIENTS_TABLE_PATH);
    s.append(" ");
    s.append(CLIENTS_TABLE_PATH);
    s.append(".bak'");
    s
}

/// Build the command that copies both files to backups named by one server-side time, and prints
/// the time.
pub fn build_backup_timestamped_cmd() -> (r: String)
    ensures
        r@ == "sh -c 'ts=$(date +%Y%m%d-%H%M%S) && cp "@ + SERVER_CONFIG_PATH@ + " "@
            + SERVER_CONFIG_PATH@ + ".\"$ts\".bak && cp "@ + CLIENTS_TABLE_PATH@ + " "@
            + CLIENTS_TABLE_PATH@ + ".\"$ts\".bak && echo \"$ts\"'"@,
{
    let mut s = "sh -c 'ts=$(date +%Y%m%d-%H%M%S) && cp ".to_owned();
    s.append(SERVER_CONFIG_PATH);
    s.append(" ");
    s.append(SERVER_CONFIG_PATH);
    s.append(".\"$ts\".bak && cp ");
    s.append(CLIENTS_TABLE_PATH);
    s.append(" ");
    s.append(CLIENTS_TABLE_PATH);
    s.append(".\"$ts\".bak && echo \"$ts\"'");
    s
}

/// Build the command that lists the backups of `server.json`, newest first.
pub fn build_list_backups_cmd() -> (r: String)
    ensures
        r@ == "sh -c 'ls -t "@ + SERVER_CONFIG_PATH@ + ".*.bak 2>/dev/null || true'"@,
{
    let mut s = "sh -c 'ls -t ".to_owned();
    s.append(SERVER_CONFIG_PATH);
    s.append(".*.bak 2>/dev/null || true'");
    s
}

/// A time as the backups are named by it: eight digits, a hyphen and six digits.
pub open spec fn timestamp(s: Seq<char>) -> bool {
    s.len() == 15 && s[8] == '-' && forall|i: int|
        0 <= i < 15 && i != 8 ==> text::is_digit(#[trigger] s[i])
}

/// Whether a text is a time as the backups are named by it.
pub fn is_valid_timestamp(s: &str) -> (r: bool)
    ensures
        r == timestamp(s@),
{
    let v = chars_of(s);
    if v.len() != 15 || v[8] != '-' {
        return false;
    }
    let mut i: usize = 0;
    while i < 15
        invariant
            v@ == s@,
            v@.len() == 15,
            v@[8] == '-',
            i <= 15,
            forall|j: int| 0 <= j < i && j != 8 ==> text::is_digit(#[trigger] v@[j]),
        decreases 15 - i,
    {
        if i != 8 && !char_is_digit(v[i]) {
            return false;
        }
        i += 1;
    }
    true
}

/// The message for a text that is no such time.
pub open spec fn bad_timestamp(s: Seq<char>) -> Seq<char> {
    "invalid timestamp format: "@ + s
}

fn bad_timestamp_error(s: &str) -> (r: AppError)
    ensures
        error::is_xray(r, bad_timestamp(s@)),
{
    let mut m = "invalid timestamp format: ".to_owned();
    m.append(s);
    AppError::Xray(m)
}

/// Build the command that tests for the `clientsTable` of a backup.
pub fn build_validate_backup_cmd(timestamp: &str) -> (r: Result<String, AppError>)
    ensures
        match r {
            Ok(c) => self::timestamp(timestamp@) && c@ == "test -f "@ + CLIENTS_TABLE_PATH@ + "."@
                + timestamp@ + ".bak"@,
            Err(e) => !self::timestamp(timestamp@) && error::is_xray(
                e,
                bad_timestamp(timestamp@),
            ),
        },
{
    if !is_valid_timestamp(timestamp) {
        return Err(bad_timestamp_error(timestamp));
    }
    let mut s = "test -f ".to_owned();
    s.append(CLIENTS_TABLE_PATH);
    s.append(".");
    s.append(timestamp);
    s.append(".bak");
    Ok(s)
}

/// Build the command that copies both files of a backup back.
pub fn build_restore_cmd(timestamp: &str) -> (r: Result<String, AppError>)
    ensures
        match r {
            Ok(c) => self::timestamp(timestamp@) && c@ == "sh -c 'cp "@ + SERVER_CONFIG_PATH@ + "."@
                + timestamp@ + ".bak "@ + SERVER_CONFIG_PATH@ + " && cp "@ + CLIENTS_TABLE_PATH@
                + "."@ + timestamp@ + ".bak "@ + CLIENTS_TABLE_PATH@ + "'"@,
            Err(e) => !self::timestamp(timestamp@) && error::is_xray(
                e,
                bad_timestamp(timestamp@),
            ),
        },
{
    if !is_valid_timestamp(timestamp) {
        return Err(bad_timestamp_error(timestamp));
    }
    let mut s = "sh -c 'cp ".to_owned();
    s.append(SERVER_CONFIG_PATH);
    s.append(".");
    s.append(timestamp);
    s.append(".bak ");
    s.append(SERVER_CONFIG_PATH);
    s.append(" && cp ");
    s.append(CLIENTS_TABLE_PATH);
    s.append(".");
    s.append(timestamp);
    s.append(".bak ");
    s.append(CLIENTS_TABLE_PATH);
    s.append("'");
    Ok(s)
}

/// The time by which the backup on a line of the listing is named.
pub open spec fn line_timestamp(line: Seq<char>) -> Option<Seq<char>> {
    match text::after_prefix(text::trimmed(line), SERVER_CONFIG_PATH@ + "."@) {
        Some(rest) => match text::before_suffix(rest, ".bak"@) {
            Some(ts) => if timestamp(ts) {
                Some(ts)
            } else {
                None
            },
            None => None,
        },
        None => None,
    }
}

/// The times on the lines of a listing, in order.
pub open spec fn timestamps_in(lines: Seq<Seq<char>>) -> Seq<Seq<char>>
    decreases lines.len(),
{
    if lines.len() == 0 {
        Seq::empty()
    } else {
        match line_timestamp(lines.last()) {
            Some(ts) => timestamps_in(lines.drop_last()).push(ts),
            None => timestamps_in(lines.drop_last()),
        }
    }
}

fn timestamp_on(line: &str) -> (r: Option<String>)
    ensures
        text::opt_text(r) == line_timestamp(line@),
{
    let mut prefix = SERVER_CONFIG_PATH.to_owned();
    prefix.append(".");
    match strip_prefix(&trim(line), &prefix) {
        Some(rest) => match strip_suffix(&rest, ".bak") {
            Some(ts) => if is_valid_timestamp(&ts) {
                Some(ts)
            } else {
                None
            },
            None => None,
        },
        None => None,
    }
}

/// Parse the listing of the backups: the times they are named by, in the order of the listing.
pub fn parse_backup_timestamps(ls_output: &str) -> (r: Vec<String>)
    ensures
        text::texts(r@) == timestamps_in(text::lines(ls_output@)),
{
    let lines = lines_of(ls_output);
    let ghost ls = text::texts(lines@);
    let mut out: Vec<String> = Vec::new();
    let mut i: usize = 0;
    assert(ls.take(0) =~= Seq::empty());
    assert(text::texts(out@) =~= Seq::empty());
    while i < lines.len()
        invariant
            i <= lines@.len(),
            ls == text::texts(lines@),
            text::texts(out@) == timestamps_in(ls.take(i as int)),
        decreases lines.len() - i,
    {
        assert(ls.take(i + 1).drop_last() =~= ls.take(i as int));
        let ghost before = text::texts(out@);
        match timestamp_on(&lines[i]) {
            Some(ts) => {
                out.push(ts);
                assert(text::texts(out@) =~= before.push(ts@));
            },
            None => {},
        }
        i += 1;
    }
    assert(ls.take(i as int) =~= ls);
    out
}

/// What is listed is a time, so that commands can be built from it.
pub proof fn law_listed_backups_are_timestamps(lines: Seq<Seq<char>>)
    ensures
        forall|i: int|
            0 <= i < timestamps_in(lines).len() ==> timestamp(#[trigger] timestamps_in(lines)[i]),
    decreases lines.len(),
{
    if lines.len() > 0 {
        law_listed_backups_are_timestamps(lines.drop_last());
        let before = timestamps_in(lines.drop_last());
        let all = timestamps_in(lines);
        assert forall|i: int| 0 <= i < all.len() implies timestamp(#[trigger] all[i]) by {
            if i < before.len() {
                assert(all[i] == before[i]);
            }
        }
    }
}

// ---- API calls ----

/// The command that removes a user from the running server.
pub open spec fn rmu_cmd(email: Seq<char>) -> Seq<char> {
    "xray api rmu -s "@ + API_ADDR@ + " -tag=vless-in "@ + quoted(email)
}

/// The command that asks for a counter.
pub open spec fn stats_cmd(name: Seq<char>) -> Seq<char> {
    "xray api stats -s "@ + API_ADDR@ + " -name "@ + quoted(name)
}

/// Build the command that removes a user from the running server. Any email can be quoted, so this
/// does not fail.
pub fn build_rmu_cmd(email: &str) -> (r: Result<String, AppError>)
    ensures
        r matches Ok(c) && c@ == rmu_cmd(email@),
{
    let mut s = "xray api rmu -s ".to_owned();
    s.append(API_ADDR);
    s.append(" -tag=vless-in ");
    s.append(&shell_quote(email));
    Ok(s)
}

fn build_counter_cmd(name: &str) -> (r: String)
    ensures
        r@ == stats_cmd(name@),
{
    let mut s = "xray api stats -s ".to_owned();
    s.append(API_ADDR);
    s.append(" -name ");
    s.append(&shell_quote(name));
    s
}

/// Build the command that asks for a user's traffic in one direction.
pub fn build_stats_cmd(email: &str, direction: &str) -> (r: Result<String, AppError>)
    ensures
        r matches Ok(c) && c@ == stats_cmd("user>>>"@ + email@ + ">>>traffic>>>"@ + direction@),
{
    let mut name = "user>>>".to_owned();
    name.append(email);
    name.append(">>>traffic>>>");
    name.append(direction);
    Ok(build_counter_cmd(&name))
}

/// Build the command that asks for an inbound's traffic in one direction.
pub fn build_inbound_stats_cmd(inbound_tag: &str, direction: &str) -> (r: Result<String, AppError>)
    ensures
        r matches Ok(c) && c@ == stats_cmd(
            "inbound>>>"@ + inbound_tag@ + ">>>traffic>>>"@ + direction@,
        ),
{
    let mut name = "inbound>>>".to_owned();
    name.append(inbound_tag);
    name.append(">>>traffic>>>");
    name.append(direction);
    Ok(build_counter_cmd(&name))
}

/// Build the command that asks for the number of a user's connections.
pub fn build_online_cmd(email: &str) -> (r: Result<String, AppError>)
    ensures
        r matches Ok(c) && c@ == "xray api statsonline -s "@ + API_ADDR@ + " -email "@ + quoted(
            email@,
        ),
{
    let mut s = "xray api statsonline -s ".to_owned();
    s.append(API_ADDR);
    s.append(" -email ");
    s.append(&shell_quote(email));
    Ok(s)
}

/// Build the command that asks for the addresses a user is connected from.
pub fn build_online_ip_list_cmd(email: &str) -> (r: Result<String, AppError>)
    ensures
        r matches Ok(c) && c@ == "xray api statsonlineiplist -s "@ + API_ADDR@ + " -email "@
            + quoted(email@),
{
    let mut s = "xray api statsonlineiplist -s ".to_owned();
    s.append(API_ADDR);
    s.append(" -email ");
    s.append(&shell_quote(email));
    Ok(s)
}

/// The command that restarts a container.
pub open spec fn restart_cmd(container: Seq<char>) -> Seq<char> {
    "docker restart "@ + quoted(container)
}

/// Build the command that restarts a container.
pub fn build_restart_cmd(container: &str) -> (r: String)
    ensures
        r@ == restart_cmd(container@),
{
    let mut s = "docker restart ".to_owned();
    s.append(&shell_quote(container));
    s
}

// ---- writing files ----

/// What `base64`'s standard engine writes for bytes.
pub uninterp spec fn base64_text(b: Seq<u8>) -> Seq<char>;

/// A character of the standard base64 alphabet or its padding.
pub open spec fn is_base64(c: char) -> bool {
    'A' <= c <= 'Z' || 'a' <= c <= 'z' || text::is_digit(c) || c == '+' || c == '/' || c == '='
}

/// Calls `base64::engine::general_purpose::STANDARD.encode`. What it writes is named; it holds no
/// other characters than those of the alphabet and the padding.
#[verifier::external_body]
fn base64_of(b: &[u8]) -> (r: String)
    ensures
        r@ == base64_text(b@),
        forall|i: int| 0 <= i < r@.len() ==> is_base64(#[trigger] r@[i]),
{
    base64::Engine::encode(&base64::engine::general_purpose::STANDARD, b)
}

/// The bytes of a text in base64.
pub open spec fn text_base64(s: Seq<char>) -> Seq<char> {
    base64_text(vstd::utf8::encode_utf8(s))
}

/// The script that replaces a file by a text: the text comes in base64 and goes into a temporary
/// file that is then moved over the file.
pub open spec fn write_script(path: Seq<char>, contents: Seq<char>) -> Seq<char> {
    "echo "@ + text_base64(contents) + " | base64 -d > "@ + path + ".tmp"@ + " && mv "@ + path
        + ".tmp"@ + " "@ + path
}

/// The script that adds a user to the running server, from the JSON of the call.
pub open spec fn adu_script(user_json: Seq<char>) -> Seq<char> {
    "echo "@ + text_base64(user_json) + " | base64 -d > /tmp/_adu.json && xray api adu -s "@
        + API_ADDR@ + " /tmp/_adu.json; rc=$?; rm -f /tmp/_adu.json; exit $rc"@
}

/// The command that hands a script to a shell in single quotes.
pub open spec fn sh_cmd(script: Seq<char>) -> Seq<char> {
    "sh -c '"@ + script + "'"@
}

/// The command that replaces a file by a text.
pub open spec fn write_cmd(path: Seq<char>, contents: Seq<char>) -> Seq<char> {
    sh_cmd(write_script(path, contents))
}

/// The command that adds a user to the running server.
pub open spec fn adu_cmd(user_json: Seq<char>) -> Seq<char> {
    sh_cmd(adu_script(user_json))
}

/// The quotes of the command hold: its argument is the script, whole and unchanged.
pub open spec fn hands_on(cmd: Seq<char>, script: Seq<char>) -> bool {
    cmd.len() >= 6 && word_outside(cmd.skip(6)) == Some(script)
}

proof fn lemma_replaced_none(s: Seq<char>, x: char, w: Seq<char>)
    requires
        !s.contains(x),
    ensures
        text::replaced(s, x, w) == s,
    decreases s.len(),
{
    if s.len() > 0 {
        let t = s.drop_last();
        assert(!t.contains(x)) by {
            if t.contains(x) {
                let k = choose|k: int| 0 <= k < t.len() && t[k] == x;
                assert(s[k] == x);
            }
        }
        lemma_replaced_none(t, x, w);
        assert(s.last() != x) by {
            assert(s.contains(s.last()));
        }
        assert(text::replaced(s, x, w) =~= s);
    } else {
        assert(text::replaced(s, x, w) =~= s);
    }
}

/// A script without a single quote is handed on whole.
pub proof fn law_script_is_handed_on(script: Seq<char>)
    requires
        !script.contains('\''),
    ensures
        hands_on(sh_cmd(script), script),
{
    reveal_strlit("sh -c '");
    reveal_strlit("'");
    lemma_replaced_none(script, '\'', "'\\''"@);
    law_quoting_is_safe(script);
    assert(sh_cmd(script).skip(6) =~= quoted(script));
}

proof fn lemma_concat_lacks(a: Seq<char>, b: Seq<char>, x: char)
    requires
        !a.contains(x),
        !b.contains(x),
    ensures
        !(a + b).contains(x),
{
    if (a + b).contains(x) {
        let k = choose|k: int| 0 <= k < (a + b).len() && (a + b)[k] == x;
        if k < a.len() {
            assert(a[k] == x);
        } else {
            assert(b[k - a.len()] == x);
        }
    }
}

/// Build the command that replaces a file by a text.
pub fn build_write_cmd(path: &str, contents: &str) -> (r: String)
    ensures
        r@ == write_cmd(path@, contents@),
        !path@.contains('\'') ==> hands_on(r@, write_script(path@, contents@)),
{
    let payload = base64_of(contents.as_bytes());
    let mut t = "echo ".to_owned();
    t.append(&payload);
    t.append(" | base64 -d > ");
    t.append(path);
    t.append(".tmp");
    t.append(" && mv ");
    t.append(path);
    t.append(".tmp");
    t.append(" ");
    t.append(path);
    proof {
        if !path@.contains('\'') {
            let q = '\'';
            reveal_strlit("echo ");
            reveal_strlit(" | base64 -d > ");
            reveal_strlit(".tmp");
            reveal_strlit(" && mv ");
            reveal_strlit(" ");
            assert(!payload@.contains(q));
            let a = "echo "@ + payload@;
            lemma_concat_lacks("echo "@, payload@, q);
            lemma_concat_lacks(a, " | base64 -d > "@, q);
            let b = a + " | base64 -d > "@;
            lemma_concat_lacks(b, path@, q);
            let c = b + path@;
            lemma_concat_lacks(c, ".tmp"@, q);
            let d = c + ".tmp"@;
            lemma_concat_lacks(d, " && mv "@, q);
            let e = d + " && mv "@;
            lemma_concat_lacks(e, path@, q);
            let f = e + path@;
            lemma_concat_lacks(f, ".tmp"@, q);
            let g = f + ".tmp"@;
            lemma_concat_lacks(g, " "@, q);
            lemma_concat_lacks(g + " "@, path@, q);
            law_script_is_handed_on(t@);
        }
    }
    let mut s = "sh -c '".to_owned();
    s.append(&t);
    s.append("'");
    s
}

/// Build the command that adds a user to the running server.
pub fn build_adu_cmd(user_json: &str) -> (r: String)
    ensures
        r@ == adu_cmd(user_json@),
        hands_on(r@, adu_script(user_json@)),
{
    let payload = base64_of(user_json.as_bytes());
    let mut t = "echo ".to_owned();
    t.append(&payload);
    t.append(" | base64 -d > /tmp/_adu.json && xray api adu -s ");
    t.append(API_ADDR);
    t.append(" /tmp/_adu.json; rc=$?; rm -f /tmp/_adu.json; exit $rc");
    proof {
        let q = '\'';
        reveal_strlit("echo ");
        reveal_strlit(" | base64 -d > /tmp/_adu.json && xray api adu -s ");
        reveal_strlit("127.0.0.1:8080");
        reveal_strlit(" /tmp/_adu.json; rc=$?; rm -f /tmp/_adu.json; exit $rc");
        assert(!payload@.contains(q));
        lemma_concat_lacks("echo "@, payload@, q);
        let a = "echo "@ + payload@;
        lemma_concat_lacks(a, " | base64 -d > /tmp/_adu.json && xray api adu -s "@, q);
        let b = a + " | base64 -d > /tmp/_adu.json && xray api adu -s "@;
        lemma_concat_lacks(b, API_ADDR@, q);
        lemma_concat_lacks(
            b + API_ADDR@,
            " /tmp/_adu.json; rc=$?; rm -f /tmp/_adu.json; exit $rc"@,
            q,
        );
        law_script_is_handed_on(t@);
    }
    let mut s = "sh -c '".to_owned();
    s.append(&t);
    s.append("'");
    s
}

// ---- laws ----

/// A command and its last argument, which the shell reads as one word.
pub open spec fn ends_in_word(cmd: Seq<char>, start: Seq<char>, word: Seq<char>) -> bool {
    start.is_prefix_of(cmd) && word_outside(cmd.skip(start.len() as int)) == Some(word)
}

proof fn lemma_ends_in_word(start: Seq<char>, word: Seq<char>)
    ensures
        ends_in_word(start + quoted(word), start, word),
{
    law_quoting_is_safe(word);
    let c = start + quoted(word);
    assert(c.skip(start.len() as int) =~= quoted(word));
    assert(c.take(start.len() as int) =~= start);
}

/// **A command is about the user whose email it was built with**, whatever the email holds: the shell
/// reads it as one word.
pub proof fn law_commands_are_about_their_user(
    email: &str,
    direction: &str,
    tag: &str,
    rmu: Result<String, AppError>,
    stats: Result<String, AppError>,
    inbound: Result<String, AppError>,
    online: Result<String, AppError>,
    ips: Result<String, AppError>,
)
    requires
        call_ensures(build_rmu_cmd, (email,), rmu),
        call_ensures(build_stats_cmd, (email, direction), stats),
        call_ensures(build_inbound_stats_cmd, (tag, direction), inbound),
        call_ensures(build_online_cmd, (email,), online),
        call_ensures(build_online_ip_list_cmd, (email,), ips),
    ensures
        rmu matches Ok(c) && ends_in_word(
            c@,
            "xray api rmu -s "@ + "127.0.0.1:8080"@ + " -tag=vless-in "@,
            email@,
        ),
        stats matches Ok(c) && ends_in_word(
            c@,
            "xray api stats -s "@ + "127.0.0.1:8080"@ + " -name "@,
            "user>>>"@ + email@ + ">>>traffic>>>"@ + direction@,
        ),
        inbound matches Ok(c) && ends_in_word(
            c@,
            "xray api stats -s "@ + "127.0.0.1:8080"@ + " -name "@,
            "inbound>>>"@ + tag@ + ">>>traffic>>>"@ + direction@,
        ),
        online matches Ok(c) && ends_in_word(
            c@,
            "xray api statsonline -s "@ + "127.0.0.1:8080"@ + " -email "@,
            email@,
        ),
        ips matches Ok(c) && ends_in_word(
            c@,
            "xray api statsonlineiplist -s "@ + "127.0.0.1:8080"@ + " -email "@,
            email@,
        ),
{
    let a = "127.0.0.1:8080"@;
    lemma_ends_in_word("xray api rmu -s "@ + a + " -tag=vless-in "@, email@);
    lemma_ends_in_word(
        "xray api stats -s "@ + a + " -name "@,
        "user>>>"@ + email@ + ">>>traffic>>>"@ + direction@,
    );
    lemma_ends_in_word(
        "xray api stats -s "@ + a + " -name "@,
        "inbound>>>"@ + tag@ + ">>>traffic>>>"@ + direction@,
    );
    lemma_ends_in_word("xray api statsonline -s "@ + a + " -email "@, email@);
    lemma_ends_in_word("xray api statsonlineiplist -s "@ + a + " -email "@, email@);
}

/// **A word that is quoted is read as that word**, and the container that is restarted is the one with
/// that very name.
pub proof fn law_quoted_word_is_read_as_itself(s: &str, r: String, restart: String)
    requires
        call_ensures(shell_quote, (s,), r),
        call_ensures(build_restart_cmd, (s,), restart),
    ensures
        word_outside(r@) == Some(s@),
        ends_in_word(restart@, "docker restart "@, s@),
{
    law_quoting_is_safe(s@);
    lemma_ends_in_word("docker restart "@, s@);
}

/// **A time is eight digits, a hyphen and six digits**, and nothing else is.
pub proof fn law_time_of_a_backup(s: &str, r: bool)
    requires
        call_ensures(is_valid_timestamp, (s,), r),
    ensures
        r <==> s@.len() == 15 && s@[8] == '-' && (forall|i: int|
            0 <= i < 8 ==> '0' <= #[trigger] s@[i] <= '9') && (forall|i: int|
            9 <= i < 15 ==> '0' <= #[trigger] s@[i] <= '9'),
{
    if s@.len() == 15 && s@[8] == '-' && (forall|i: int|
        0 <= i < 8 ==> '0' <= #[trigger] s@[i] <= '9') && (forall|i: int|
        9 <= i < 15 ==> '0' <= #[trigger] s@[i] <= '9') {
        assert forall|i: int| 0 <= i < 15 && i != 8 implies text::is_digit(#[trigger] s@[i]) by {
        }
        assert(timestamp(s@));
    }
    if timestamp(s@) {
        assert forall|i: int| 0 <= i < 8 implies '0' <= #[trigger] s@[i] <= '9' by {
            assert(text::is_digit(s@[i]));
        }
        assert forall|i: int| 9 <= i < 15 implies '0' <= #[trigger] s@[i] <= '9' by {
            assert(text::is_digit(s@[i]));
        }
    }
}

/// **Both files are kept and given back, each as itself.** A backup copies each file to a name of its
/// own, and restoring copies each of that very time back.
pub proof fn law_both_files_are_kept_and_given_back(
    ts: &str,
    valid: bool,
    plain: String,
    timed: String,
    listing: String,
    test: Result<String, AppError>,
    restore: Result<String, AppError>,
)
    requires
        call_ensures(is_valid_timestamp, (ts,), valid),
        call_ensures(build_backup_cmd, (), plain),
        call_ensures(build_backup_timestamped_cmd, (), timed),
        call_ensures(build_list_backups_cmd, (), listing),
        call_ensures(build_validate_backup_cmd, (ts,), test),
        call_ensures(build_restore_cmd, (ts,), restore),
    ensures
        plain@ == "sh -c 'cp "@ + "/opt/amnezia/xray/server.json"@ + " "@
            + "/opt/amnezia/xray/server.json"@ + ".bak && cp "@ + "/opt/amnezia/xray/clientsTable"@
            + " "@ + "/opt/amnezia/xray/clientsTable"@ + ".bak'"@,
        timed@ == "sh -c 'ts=$(date +%Y%m%d-%H%M%S) && cp "@ + "/opt/amnezia/xray/server.json"@
            + " "@ + "/opt/amnezia/xray/server.json"@ + ".\"$ts\".bak && cp "@
            + "/opt/amnezia/xray/clientsTable"@ + " "@ + "/opt/amnezia/xray/clientsTable"@
            + ".\"$ts\".bak && echo \"$ts\"'"@,
        listing@ == "sh -c 'ls -t "@ + "/opt/amnezia/xray/server.json"@
            + ".*.bak 2>/dev/null || true'"@,
        valid ==> {
            &&& test matches Ok(c) && c@ == "test -f "@ + "/opt/amnezia/xray/clientsTable"@ + "."@
                + ts@ + ".bak"@
            &&& restore matches Ok(c) && c@ == "sh -c 'cp "@ + "/opt/amnezia/xray/server.json"@
                + "."@ + ts@ + ".bak "@ + "/opt/amnezia/xray/server.json"@ + " && cp "@
                + "/opt/amnezia/xray/clientsTable"@ + "."@ + ts@ + ".bak "@
                + "/opt/amnezia/xray/clientsTable"@ + "'"@
        },
        !valid ==> {
            &&& test matches Err(AppError::Xray(m)) && m@ == "invalid timestamp format: "@ + ts@
            &&& restore matches Err(AppError::Xray(m)) && m@ == "invalid timestamp format: "@ + ts@
        },
{
}

/// **A file is replaced by the text, by way of a file beside it**; and the call that adds a user comes
/// from the text that was given.
pub proof fn law_files_are_replaced_by_the_text(
    path: &str,
    contents: &str,
    write: String,
    adu: String,
)
    requires
        call_ensures(build_write_cmd, (path, contents), write),
        call_ensures(build_adu_cmd, (contents,), adu),
    ensures
        write@ == "sh -c '"@ + ("echo "@ + base64_text(vstd::utf8::encode_utf8(contents@))
            + " | base64 -d > "@ + path@ + ".tmp"@ + " && mv "@ + path@ + ".tmp"@ + " "@ + path@)
            + "'"@,
        adu@ == "sh -c '"@ + ("echo "@ + base64_text(vstd::utf8::encode_utf8(contents@))
            + " | base64 -d > /tmp/_adu.json && xray api adu -s "@ + "127.0.0.1:8080"@
            + " /tmp/_adu.json; rc=$?; rm -f /tmp/_adu.json; exit $rc"@) + "'"@,
{
}

} // verus!
