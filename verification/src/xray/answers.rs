//! What the server answers to the API commands.

use crate::decimal;
use crate::decimal::parse_i64;
use crate::json;
use crate::json::codec;
use crate::json::{Json, JsonV};
use crate::order;
use crate::text;
use crate::text::{first_word_of, lines_of, split_on, strip_prefix, trim, trim_of};
use vstd::prelude::*;

verus! {

/// A counter can be negative after a reset; it then counts as zero.
pub open spec fn not_negative(n: int) -> int {
    if n < 0 {
        0
    } else {
        n
    }
}

// ---- counters ----

/// The counter in a JSON answer.
pub open spec fn stat_member(j: JsonV) -> Option<i64> {
    match json::get2(j, "stat"@, "value"@) {
        Some(v) => v.as_i64(),
        None => None,
    }
}

/// The counter on a line of a text answer: `value: 123` or `"value": 123,`.
pub open spec fn stat_on_line(line: Seq<char>) -> Option<int> {
    let t = text::trimmed_of(text::trimmed(line), ',');
    match text::after_prefix(t, "\"value\":"@) {
        Some(rest) => decimal::parse_signed(text::trimmed(rest)),
        None => match text::after_prefix(t, "value:"@) {
            Some(rest) => decimal::parse_signed(text::trimmed(rest)),
            None => None,
        },
    }
}

/// The first counter on the lines from `i` on.
pub open spec fn stat_on_lines(lines: Seq<Seq<char>>, i: int) -> Option<int>
    decreases lines.len() - i,
{
    if i < 0 || i >= lines.len() {
        None
    } else {
        match stat_on_line(lines[i]) {
            Some(n) => Some(n),
            None => stat_on_lines(lines, i + 1),
        }
    }
}

/// The counter in an answer, given what the answer is as JSON, if it is JSON.
pub open spec fn stat_in(parsed: Option<JsonV>, output: Seq<char>) -> Option<int> {
    match parsed {
        Some(j) => match stat_member(j) {
            Some(n) => Some(not_negative(n as int)),
            None => match stat_on_lines(text::lines(output), 0) {
                Some(n) => Some(not_negative(n)),
                None => None,
            },
        },
        None => match stat_on_lines(text::lines(output), 0) {
            Some(n) => Some(not_negative(n)),
            None => None,
        },
    }
}

/// What a text is as JSON.
pub open spec fn as_json(output: Seq<char>) -> Option<JsonV> {
    match codec::json_of_text(output) {
        Ok(j) => Some(j),
        Err(_) => None,
    }
}

/// The meaning of a value that may be missing.
pub open spec fn opt_view(j: Option<Json>) -> Option<JsonV> {
    match j {
        Some(x) => Some(x@),
        None => None,
    }
}

fn parsed(output: &str) -> (r: Option<Json>)
    ensures
        opt_view(r) == as_json(output@),
{
    match Json::parse(output) {
        Ok(j) => Some(j),
        Err(_) => None,
    }
}

fn line_stat(line: &str) -> (r: Option<i64>)
    ensures
        match r {
            Some(n) => stat_on_line(line@) == Some(n as int),
            None => stat_on_line(line@) is None,
        },
{
    let t = trim_of(&trim(line), ',');
    match strip_prefix(&t, "\"value\":") {
        Some(rest) => parse_i64(&trim(&rest)),
        None => match strip_prefix(&t, "value:") {
            Some(rest) => parse_i64(&trim(&rest)),
            None => None,
        },
    }
}

fn member_stat(j: &Json) -> (r: Option<i64>)
    ensures
        r == stat_member(j@),
{
    match j.get("stat") {
        Some(s) => match s.get("value") {
            Some(v) => v.as_i64(),
            None => None,
        },
        None => None,
    }
}

fn count_of(n: i64) -> (r: u64)
    ensures
        r == not_negative(n as int),
{
    if n < 0 {
        0
    } else {
        n as u64
    }
}

/// The counter in an answer, given what the answer is as JSON.
pub fn stat_value_from(parsed: &Option<Json>, output: &str) -> (r: Option<u64>)
    ensures
        match r {
            Some(n) => stat_in(opt_view(*parsed), output@) == Some(n as int),
            None => stat_in(opt_view(*parsed), output@) is None,
        },
{
    match parsed {
        Some(j) => match member_stat(j) {
            Some(n) => {
                return Some(count_of(n));
            },
            None => {},
        },
        None => {},
    }
    let lines = lines_of(output);
    let ghost ls = text::texts(lines@);
    let mut i: usize = 0;
    while i < lines.len()
        invariant
            i <= lines@.len(),
            ls == text::texts(lines@),
            ls == text::lines(output@),
            stat_on_lines(ls, 0) == stat_on_lines(ls, i as int),
            match opt_view(*parsed) {
                Some(j) => stat_member(j) is None,
                None => true,
            },
        decreases lines.len() - i,
    {
        match line_stat(&lines[i]) {
            Some(n) => {
                return Some(count_of(n));
            },
            None => {},
        }
        i += 1;
    }
    None
}

/// Parse the counter in an answer: from its JSON, else from its first line that gives one.
pub fn parse_stat_value(output: &str) -> (r: Option<u64>)
    ensures
        match r {
            Some(n) => stat_in(as_json(output@), output@) == Some(n as int),
            None => stat_in(as_json(output@), output@) is None,
        },
{
    stat_value_from(&parsed(output), output)
}

/// **A counter is read as it stands.** In a JSON answer whose `stat.value` is an integer that fits,
/// the counter is that integer, and zero where it is negative, whatever else the answer holds.
pub proof fn law_counter_is_the_value(
    parsed: Option<Json>,
    output: &str,
    r: Option<u64>,
    stat: JsonV,
)
    requires
        call_ensures(stat_value_from, (&parsed, output), r),
        parsed is Some,
        parsed->0@.get("stat"@) == Some(stat),
    ensures
        stat.get("value"@) matches Some(JsonV::UInt(n)) ==> n <= i64::MAX ==> r == Some(n),
        stat.get("value"@) matches Some(JsonV::NegInt(n)) ==> r == Some(
            if n < 0 {
                0u64
            } else {
                n as u64
            },
        ),
{
}

/// **A counter is read from the text of an answer** as from its JSON: what is read of an answer is
/// what is read of its JSON.
pub proof fn law_counter_of_the_text(
    parsed: Option<Json>,
    output: &str,
    r: Option<u64>,
    q: Option<u64>,
    n: Option<u32>,
    m: Option<u32>,
)
    requires
        call_ensures(stat_value_from, (&parsed, output), r),
        call_ensures(parse_stat_value, (output,), q),
        call_ensures(online_count_from, (&parsed, output), n),
        call_ensures(parse_online_count, (output,), m),
        match codec::json_of_text(output@) {
            Ok(j) => parsed matches Some(p) && p@ == j,
            Err(_) => parsed is None,
        },
    ensures
        q == r,
        m == n,
{
}

/// The connections in an answer; only the lower 32 bits are kept.
pub open spec fn online_in(parsed: Option<JsonV>, output: Seq<char>) -> Option<int> {
    match stat_in(parsed, output) {
        Some(n) => Some(n % 0x1_0000_0000),
        None => None,
    }
}

/// The connections in an answer, given what the answer is as JSON.
pub fn online_count_from(parsed: &Option<Json>, output: &str) -> (r: Option<u32>)
    ensures
        match r {
            Some(n) => online_in(opt_view(*parsed), output@) == Some(n as int),
            None => online_in(opt_view(*parsed), output@) is None,
        },
{
    match stat_value_from(parsed, output) {
        Some(n) => Some((n % 0x1_0000_0000) as u32),
        None => None,
    }
}

/// Parse the number of a user's connections.
pub fn parse_online_count(output: &str) -> (r: Option<u32>)
    ensures
        match r {
            Some(n) => online_in(as_json(output@), output@) == Some(n as int),
            None => online_in(as_json(output@), output@) is None,
        },
{
    online_count_from(&parsed(output), output)
}

// ---- addresses ----

/// The address on a line of a text answer.
pub open spec fn ip_on_line(line: Seq<char>) -> Option<Seq<char>> {
    match text::after_prefix(text::trimmed(line), "name:"@) {
        Some(rest) => {
            let parts = text::pieces(text::trimmed_of(text::trimmed(rest), '"'), ">>>ip>>>"@);
            if parts.len() > 1 && text::trimmed_of(parts[1], '"').len() > 0 {
                Some(text::trimmed_of(parts[1], '"'))
            } else {
                None
            }
        },
        None => None,
    }
}

/// The addresses on the lines of a text answer, in order.
pub open spec fn ips_on_lines(lines: Seq<Seq<char>>) -> Seq<Seq<char>>
    decreases lines.len(),
{
    if lines.len() == 0 {
        Seq::empty()
    } else {
        match ip_on_line(lines.last()) {
            Some(ip) => ips_on_lines(lines.drop_last()).push(ip),
            None => ips_on_lines(lines.drop_last()),
        }
    }
}

/// The list holds the addresses of the answer: in order the names under `ips` of a JSON answer, none
/// where there is no such object; of another answer those on its lines.
pub open spec fn are_ips(list: Seq<Seq<char>>, parsed: Option<JsonV>, output: Seq<char>) -> bool {
    match parsed {
        Some(j) => match j.get("ips"@) {
            Some(JsonV::Object(m)) => order::sorted(list) && list.to_set() == m.dom(),
            _ => list.len() == 0,
        },
        None => list == ips_on_lines(text::lines(output)),
    }
}

fn line_ip(line: &str) -> (r: Option<String>)
    ensures
        text::opt_text(r) == ip_on_line(line@),
{
    match strip_prefix(&trim(line), "name:") {
        Some(rest) => {
            proof {
                reveal_strlit(">>>ip>>>");
            }
            let name = trim_of(&trim(&rest), '"');
            let parts = split_on(&name, ">>>ip>>>");
            let ghost ps = text::texts(parts@);
            if parts.len() > 1 {
                assert(ps[1] == parts@[1]@);
                let ip = trim_of(&parts[1], '"');
                if ip.as_str().is_empty() {
                    None
                } else {
                    Some(ip)
                }
            } else {
                None
            }
        },
        None => None,
    }
}

/// The addresses in an answer, given what the answer is as JSON.
pub fn online_ips_from(parsed: &Option<Json>, output: &str) -> (r: Vec<String>)
    ensures
        are_ips(text::texts(r@), opt_view(*parsed), output@),
{
    match parsed {
        Some(j) => {
            match j.get("ips") {
                Some(ips) => match ips.names() {
                    Some(v) => {
                        return v;
                    },
                    None => {},
                },
                None => {},
            }
            Vec::new()
        },
        None => {
            let lines = lines_of(output);
            let ghost ls = text::texts(lines@);
            let mut out: Vec<String> = Vec::new();
            let mut i: usize = 0;
            assert(ls.take(0) =~= Seq::empty());
            assert(text::texts(out@) =~= Seq::empty());
            while i < lines.len()
                invariant
                    i <= lines@.len(),
                    ls == text::texts(lines@),
                    text::texts(out@) == ips_on_lines(ls.take(i as int)),
                decreases lines.len() - i,
            {
                assert(ls.take(i + 1).drop_last() =~= ls.take(i as int));
                let ghost before = text::texts(out@);
                match line_ip(&lines[i]) {
                    Some(ip) => {
                        out.push(ip);
                        assert(text::texts(out@) =~= before.push(ip@));
                    },
                    None => {},
                }
                i += 1;
            }
            assert(ls.take(i as int) =~= ls);
            out
        },
    }
}

/// Parse the addresses that a user is connected from.
pub fn parse_online_ip_list(output: &str) -> (r: Vec<String>)
    ensures
        are_ips(text::texts(r@), as_json(output@), output@),
{
    online_ips_from(&parsed(output), output)
}

// ---- version ----

/// The version on a line that begins with `Xray`.
pub open spec fn version_on_line(line: Seq<char>) -> Option<Seq<char>> {
    match text::after_prefix(text::trimmed(line), "Xray "@) {
        Some(rest) => text::first_word(rest),
        None => None,
    }
}

/// The first version on the lines from `i` on.
pub open spec fn version_on_lines(lines: Seq<Seq<char>>, i: int) -> Option<Seq<char>>
    decreases lines.len() - i,
{
    if i < 0 || i >= lines.len() {
        None
    } else {
        match version_on_line(lines[i]) {
            Some(v) => Some(v),
            None => version_on_lines(lines, i + 1),
        }
    }
}

/// The version that the server states; `unknown` where it states none.
pub open spec fn version_in(output: Seq<char>) -> Seq<char> {
    match version_on_lines(text::lines(output), 0) {
        Some(v) => v,
        None => "unknown"@,
    }
}

fn line_version(line: &str) -> (r: Option<String>)
    ensures
        text::opt_text(r) == version_on_line(line@),
{
    match strip_prefix(&trim(line), "Xray ") {
        Some(rest) => first_word_of(&rest),
        None => None,
    }
}

/// Parse the version that the server states.
pub fn parse_version(output: &str) -> (r: String)
    ensures
        r@ == version_in(output@),
{
    let lines = lines_of(output);
    let ghost ls = text::texts(lines@);
    let mut i: usize = 0;
    while i < lines.len()
        invariant
            i <= lines@.len(),
            ls == text::texts(lines@),
            ls == text::lines(output@),
            version_on_lines(ls, 0) == version_on_lines(ls, i as int),
        decreases lines.len() - i,
    {
        match line_version(&lines[i]) {
            Some(v) => {
                return v;
            },
            None => {},
        }
        i += 1;
    }
    "unknown".to_owned()
}

// ---- laws ----

/// The line gives the counter `n`: without the blanks and commas around it, it is `value:` or
/// `"value":` and then a number.
pub open spec fn gives_counter(line: Seq<char>, n: int) -> bool {
    exists|rest: Seq<char>|
        {
            &&& #[trigger] decimal::parse_signed(text::trimmed(rest)) == Some(n)
            &&& {
                let t = text::trimmed_of(text::trimmed(line), ',');
                t == "value:"@ + rest || t == "\"value\":"@ + rest
            }
        }
}

proof fn lemma_gives_counter(line: Seq<char>)
    ensures
        forall|n: int| #[trigger] gives_counter(line, n) <==> stat_on_line(line) == Some(n),
{
    reveal_strlit("value:");
    reveal_strlit("\"value\":");
    let t = text::trimmed_of(text::trimmed(line), ',');
    let p = "value:"@;
    let q = "\"value\":"@;
    assert forall|n: int| #[trigger] gives_counter(line, n) implies stat_on_line(line) == Some(
        n,
    ) by {
        let rest = choose|rest: Seq<char>|
            {
                &&& #[trigger] decimal::parse_signed(text::trimmed(rest)) == Some(n)
                &&& (t == p + rest || t == q + rest)
            };
        if t == q + rest {
            assert(q.is_prefix_of(t)) by {
                assert(t.subrange(0, q.len() as int) =~= q);
            }
            assert(t.skip(q.len() as int) =~= rest);
        } else {
            assert(t[0] == 'v');
            assert(!q.is_prefix_of(t)) by {
                if q.is_prefix_of(t) {
                    assert(t[0] == q[0]);
                }
            }
            assert(p.is_prefix_of(t)) by {
                assert(t.subrange(0, p.len() as int) =~= p);
            }
            assert(t.skip(p.len() as int) =~= rest);
        }
    }
    assert forall|n: int| stat_on_line(line) == Some(n) implies #[trigger] gives_counter(
        line,
        n,
    ) by {
        if q.is_prefix_of(t) {
            let rest = t.skip(q.len() as int);
            assert(t =~= q + rest);
            assert(decimal::parse_signed(text::trimmed(rest)) == Some(n));
        } else {
            let rest = t.skip(p.len() as int);
            assert(t =~= p + rest);
            assert(decimal::parse_signed(text::trimmed(rest)) == Some(n));
        }
    }
}

proof fn lemma_first_counter(lines: Seq<Seq<char>>, k: int, i: int)
    requires
        0 <= k <= i <= lines.len(),
        forall|j: int| k <= j < i ==> stat_on_line(#[trigger] lines[j]) is None,
        i < lines.len() ==> stat_on_line(lines[i]) is Some,
    ensures
        stat_on_lines(lines, k) == (if i < lines.len() {
            stat_on_line(lines[i])
        } else {
            None
        }),
    decreases i - k,
{
    if k < i {
        assert(stat_on_line(lines[k]) is None);
        lemma_first_counter(lines, k + 1, i);
    }
}

/// **A counter is read from the first line that gives one**, where the answer is not JSON: it is the
/// number on that line, and zero where that is negative. Where no line gives one, there is none.
pub proof fn law_counter_is_on_the_first_line(output: &str, r: Option<u64>, i: int, n: int)
    requires
        call_ensures(stat_value_from, (&None::<Json>, output), r),
        0 <= i <= text::lines(output@).len(),
        forall|j: int, m: int|
            0 <= j < i ==> !#[trigger] gives_counter(text::lines(output@)[j], m),
        i < text::lines(output@).len() ==> gives_counter(text::lines(output@)[i], n),
    ensures
        if i < text::lines(output@).len() {
            r matches Some(x) && x == (if n < 0 {
                0
            } else {
                n
            })
        } else {
            r is None
        },
{
    let lines = text::lines(output@);
    assert forall|j: int| 0 <= j < i implies stat_on_line(#[trigger] lines[j]) is None by {
        lemma_gives_counter(lines[j]);
        if stat_on_line(lines[j]) is Some {
            assert(gives_counter(lines[j], stat_on_line(lines[j])->0));
        }
    }
    if i < lines.len() {
        lemma_gives_counter(lines[i]);
    }
    lemma_first_counter(lines, 0, i);
}

/// **Connections are counted as they stand**: in a JSON answer whose `stat.value` is a 32-bit number,
/// the number of connections is that number.
pub proof fn law_connections_are_the_value(
    parsed: Option<Json>,
    output: &str,
    r: Option<u32>,
    stat: JsonV,
)
    requires
        call_ensures(online_count_from, (&parsed, output), r),
        parsed is Some,
        parsed->0@.get("stat"@) == Some(stat),
    ensures
        stat.get("value"@) matches Some(JsonV::UInt(n)) ==> n <= u32::MAX ==> r == Some(n as u32),
        stat.get("value"@) matches Some(JsonV::NegInt(n)) ==> n <= 0 ==> r == Some(0u32),
{
}

/// **The addresses are those that the answer lists**: in a JSON answer exactly the names of the
/// members of `ips`, each once and in order, and none where there is no such object.
pub proof fn law_addresses_are_those_listed(parsed: Option<Json>, output: &str, r: Vec<String>)
    requires
        call_ensures(online_ips_from, (&parsed, output), r),
        parsed is Some,
    ensures
        match parsed->0@.get("ips"@) {
            Some(JsonV::Object(m)) => {
                &&& forall|ip: Seq<char>| #[trigger]
                    m.dom().contains(ip) <==> exists|i: int|
                        0 <= i < r@.len() && (#[trigger] r@[i])@ == ip
                &&& forall|i: int, j: int|
                    0 <= i < j < r@.len() ==> order::before((#[trigger] r@[i])@, (#[trigger] r@[j])@)
            },
            _ => r@.len() == 0,
        },
{
    let list = text::texts(r@);
    assert(list.len() == r@.len());
    if let Some(JsonV::Object(m)) = parsed->0@.get("ips"@) {
        assert forall|ip: Seq<char>| #[trigger] m.dom().contains(ip) <==> exists|i: int|
            0 <= i < r@.len() && (#[trigger] r@[i])@ == ip by {
            assert(list.to_set().contains(ip) <==> list.contains(ip));
            if list.contains(ip) {
                let i = choose|i: int| 0 <= i < list.len() && list[i] == ip;
                assert(r@[i]@ == ip);
            }
            if exists|i: int| 0 <= i < r@.len() && (#[trigger] r@[i])@ == ip {
                let i = choose|i: int| 0 <= i < r@.len() && (#[trigger] r@[i])@ == ip;
                assert(list[i] == ip);
            }
        }
        assert forall|i: int, j: int| 0 <= i < j < r@.len() implies order::before(
            (#[trigger] r@[i])@,
            (#[trigger] r@[j])@,
        ) by {
            assert(list[i] == r@[i]@ && list[j] == r@[j]@);
        }
    }
}

/// **What is read of an answer's text is what is read of its JSON.**
pub proof fn law_addresses_of_the_text(
    parsed: Option<Json>,
    output: &str,
    r: Vec<String>,
)
    requires
        call_ensures(parse_online_ip_list, (output,), r),
        match codec::json_of_text(output@) {
            Ok(j) => parsed matches Some(p) && p@ == j,
            Err(_) => parsed is None,
        },
    ensures
        match parsed {
            Some(p) => match p@.get("ips"@) {
                Some(JsonV::Object(m)) => text::texts(r@).to_set() == m.dom(),
                _ => r@.len() == 0,
            },
            None => true,
        },
{
    assert(text::texts(r@).len() == r@.len());
}

/// The line states the version `v`: without the blanks around it, it is `Xray ` and then the word
/// `v`.
pub open spec fn states_version(line: Seq<char>, v: Seq<char>) -> bool {
    exists|a: int|
        #![trigger text::trimmed(line).subrange(a, a + v.len())]
        {
            let t = text::trimmed(line);
            &&& 0 < v.len() && 5 <= a && a + v.len() <= t.len()
            &&& "Xray "@.is_prefix_of(t)
            &&& t.subrange(a, a + v.len()) == v
            &&& forall|i: int| 5 <= i < a ==> text::is_space(#[trigger] t[i])
            &&& forall|i: int| 0 <= i < v.len() ==> !text::is_space(#[trigger] v[i])
            &&& a + v.len() < t.len() ==> text::is_space(t[a + v.len()])
        }
}

proof fn lemma_word_len_is(s: Seq<char>)
    ensures
        text::word_len(s) <= s.len(),
        forall|i: int| 0 <= i < text::word_len(s) ==> !text::is_space(#[trigger] s[i]),
        text::word_len(s) < s.len() ==> text::is_space(s[text::word_len(s) as int]),
    decreases s.len(),
{
    if s.len() > 0 && !text::is_space(s[0]) {
        let t = s.skip(1);
        lemma_word_len_is(t);
        assert forall|i: int| 0 <= i < text::word_len(s) implies !text::is_space(
            #[trigger] s[i],
        ) by {
            if i > 0 {
                assert(t[i - 1] == s[i]);
            }
        }
        if text::word_len(s) < s.len() {
            assert(t[text::word_len(t) as int] == s[text::word_len(s) as int]);
        }
    }
}

proof fn lemma_drop_start_is(s: Seq<char>)
    ensures
        text::drop_start(s, text::space()).len() <= s.len(),
        forall|i: int|
            0 <= i < s.len() - text::drop_start(s, text::space()).len() ==> text::is_space(
                #[trigger] s[i],
            ),
    decreases s.len(),
{
    if s.len() > 0 && text::is_space(s[0]) {
        let t = s.skip(1);
        lemma_drop_start_is(t);
        assert forall|i: int|
            0 <= i < s.len() - text::drop_start(t, text::space()).len() implies text::is_space(
            #[trigger] s[i],
        ) by {
            if i > 0 {
                assert(t[i - 1] == s[i]);
            }
        }
    }
}

proof fn lemma_states_version(line: Seq<char>)
    ensures
        version_on_line(line) matches Some(v) ==> states_version(line, v),
{
    reveal_strlit("Xray ");
    if let Some(v) = version_on_line(line) {
        let t = text::trimmed(line);
        let rest = t.skip(5);
        let d = text::drop_start(rest, text::space());
        text::lemma_drop_start_len(rest, text::space());
        lemma_drop_start_is(rest);
        lemma_word_len_is(d);
        let a = t.len() - d.len();
        assert(d =~= t.skip(a));
        assert(t.subrange(a, a + v.len()) =~= v);
        assert forall|i: int| 5 <= i < a implies text::is_space(#[trigger] t[i]) by {
            assert(rest[i - 5] == t[i]);
        }
        assert forall|i: int| 0 <= i < v.len() implies !text::is_space(#[trigger] v[i]) by {
            assert(v[i] == d[i]);
        }
        if a + v.len() < t.len() {
            assert(t[a + v.len()] == d[v.len() as int]);
        }
    }
}

proof fn lemma_version_found(lines: Seq<Seq<char>>, k: int)
    requires
        0 <= k,
    ensures
        match version_on_lines(lines, k) {
            Some(v) => exists|i: int|
                k <= i < lines.len() && version_on_line(#[trigger] lines[i]) == Some(v)
                    && forall|j: int| k <= j < i ==> version_on_line(#[trigger] lines[j]) is None,
            None => forall|j: int|
                k <= j < lines.len() ==> version_on_line(#[trigger] lines[j]) is None,
        },
    decreases lines.len() - k,
{
    if k < lines.len() && version_on_line(lines[k]) is None {
        lemma_version_found(lines, k + 1);
        if let Some(v) = version_on_lines(lines, k + 1) {
            let i = choose|i: int|
                k + 1 <= i < lines.len() && version_on_line(#[trigger] lines[i]) == Some(v)
                    && forall|j: int|
                    k + 1 <= j < i ==> version_on_line(#[trigger] lines[j]) is None;
            assert(version_on_line(lines[i]) == Some(v));
        }
    }
}

/// **The version is the one that the server states**: the word behind `Xray` on a line of its answer,
/// or `unknown`.
pub proof fn law_version_is_stated(output: &str, r: String)
    requires
        call_ensures(parse_version, (output,), r),
    ensures
        r@ == "unknown"@ || exists|i: int|
            0 <= i < text::lines(output@).len() && states_version(
                #[trigger] text::lines(output@)[i],
                r@,
            ),
{
    let lines = text::lines(output@);
    lemma_version_found(lines, 0);
    if let Some(v) = version_on_lines(lines, 0) {
        let i = choose|i: int|
            0 <= i < lines.len() && version_on_line(#[trigger] lines[i]) == Some(v)
                && forall|j: int| 0 <= j < i ==> version_on_line(#[trigger] lines[j]) is None;
        lemma_states_version(lines[i]);
    }
}

/// **The first version that is stated is the one**: the word behind `Xray` on the first line that begins
/// so, and `unknown` where no line does.
pub proof fn law_first_version_is_taken(
    output: &str,
    k: int,
    w: Seq<char>,
    rest: Seq<char>,
    r: String,
)
    requires
        call_ensures(parse_version, (output,), r),
        0 <= k <= text::lines(output@).len(),
        forall|j: int|
            0 <= j < k ==> !"Xray "@.is_prefix_of(text::trimmed(#[trigger] text::lines(output@)[j])),
        k < text::lines(output@).len() ==> text::trimmed(text::lines(output@)[k]) == "Xray "@ + w
            + rest,
        w.len() > 0,
        forall|i: int| 0 <= i < w.len() ==> !text::is_space(#[trigger] w[i]),
        rest.len() == 0 || text::is_space(rest[0]),
    ensures
        k < text::lines(output@).len() ==> r@ == w,
        k == text::lines(output@).len() ==> r@ == "unknown"@,
{
    let lines = text::lines(output@);
    lemma_version_found(lines, 0);
    if k < lines.len() {
        let p = "Xray "@;
        let t = text::trimmed(lines[k]);
        assert(t.take(p.len() as int) =~= p);
        assert(t.skip(p.len() as int) =~= w + rest);
        text::lemma_first_word(w, rest);
        assert(version_on_line(lines[k]) == Some(w));
        let i = choose|i: int|
            0 <= i < lines.len() && version_on_line(#[trigger] lines[i]) == version_on_lines(
                lines,
                0,
            ) && forall|j: int| 0 <= j < i ==> version_on_line(#[trigger] lines[j]) is None;
        if i < k {
            assert(!p.is_prefix_of(text::trimmed(lines[i])));
        }
        assert(i == k);
    } else {
        if let Some(v) = version_on_lines(lines, 0) {
            let i = choose|i: int|
                0 <= i < lines.len() && version_on_line(#[trigger] lines[i]) == Some(v)
                    && forall|j: int|
                    0 <= j < i ==> version_on_line(#[trigger] lines[j]) is None;
            assert(!"Xray "@.is_prefix_of(text::trimmed(lines[i])));
        }
    }
}

/// **JSON without a counter is read as text is**: by its lines.
pub proof fn law_counter_without_a_value(
    j: Json,
    output: &str,
    r: Option<u64>,
    s: Option<u64>,
    n: Option<u32>,
    m: Option<u32>,
)
    requires
        call_ensures(stat_value_from, (&Some(j), output), r),
        call_ensures(stat_value_from, (&None::<Json>, output), s),
        call_ensures(online_count_from, (&Some(j), output), n),
        call_ensures(online_count_from, (&None::<Json>, output), m),
        match j@.get("stat"@) {
            Some(stat) => match stat.get("value"@) {
                Some(v) => !(v is UInt) && !(v is NegInt),
                None => true,
            },
            None => true,
        },
    ensures
        r == s,
        n == m,
        s is None ==> m is None,
        s matches Some(x) ==> x <= u32::MAX ==> m == Some(x as u32),
{
}

/// **Each line of a text answer gives its own address.** One line more gives one address more, where it
/// names one, and none elsewhere.
pub proof fn law_lines_give_their_addresses(
    a: &str,
    b: &str,
    line: Seq<char>,
    x: Seq<char>,
    u: Seq<char>,
    ip: Seq<char>,
    r: Vec<String>,
    s: Vec<String>,
)
    requires
        call_ensures(online_ips_from, (&None::<Json>, a), r),
        call_ensures(online_ips_from, (&None::<Json>, b), s),
        text::lines(b@) == text::lines(a@).push(line),
    ensures
        !"name:"@.is_prefix_of(text::trimmed(line)) ==> text::texts(s@) == text::texts(r@),
        text::trimmed(line) == "name:"@ + x && text::trimmed_of(text::trimmed(x), '"') == u
            + ">>>ip>>>"@ + ip && ip.len() > 0 && (forall|i: int|
            0 <= i < ip.len() ==> (#[trigger] ip[i]) != '>' && ip[i] != '"') && (forall|i: int|
            #![trigger text::matches_at(u + ">>>ip>>>"@ + ip, ">>>ip>>>"@, i)]
            0 <= i < u.len() ==> !text::matches_at(u + ">>>ip>>>"@ + ip, ">>>ip>>>"@, i))
            ==> text::texts(s@) == text::texts(r@).push(ip),
{
    let la = text::lines(a@);
    let lb = text::lines(b@);
    assert(lb.drop_last() =~= la);
    assert(lb.last() == line);
    let p = ">>>ip>>>"@;
    let full = u + p + ip;
    if text::trimmed(line) == "name:"@ + x && text::trimmed_of(text::trimmed(x), '"') == full
        && ip.len() > 0 && (forall|i: int|
        0 <= i < ip.len() ==> (#[trigger] ip[i]) != '>' && ip[i] != '"') && (forall|i: int|
        #![trigger text::matches_at(full, p, i)]
        0 <= i < u.len() ==> !text::matches_at(full, p, i)) {
        let t = text::trimmed(line);
        let q = "name:"@;
        assert(t.take(q.len() as int) =~= q);
        assert(t.skip(q.len() as int) =~= x);
        reveal_strlit(">>>ip>>>");
        let k = u.len() as int;
        text::lemma_find_from(full, p, 0);
        assert(full.subrange(k, k + p.len()) =~= p);
        assert(text::matches_at(full, p, k));
        assert(text::find(full, p) == Some(k));
        assert(full.skip(k + p.len()) =~= ip);
        text::lemma_find_from(ip, p, 0);
        if let Some(i) = text::find_from(ip, p, 0) {
            assert(ip.subrange(i, i + p.len())[0] == ip[i]);
        }
        assert(text::pieces(ip, p) == seq![ip]);
        assert(text::pieces(full, p)[1] == ip);
        assert(!text::only('"')(ip[0]));
        assert(!text::only('"')(ip.last()));
        assert(text::trimmed_of(ip, '"') == ip);
    }
}

} // verus!
