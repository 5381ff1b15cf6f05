//! Text as sequences of characters: trimming, searching, splitting and joining.

use vstd::prelude::*;

verus! {

broadcast use vstd::string::group_string_axioms;

/// `String::push` appends one character.
pub assume_specification[ String::push ](s: &mut String, ch: char)
    ensures
        final(s)@ == old(s)@.push(ch),
;

// ---- characters ----

/// A character with the Unicode property White_Space.
pub open spec fn is_space(c: char) -> bool {
    ||| '\u{9}' <= c <= '\u{d}'
    ||| c == '\u{20}'
    ||| c == '\u{85}'
    ||| c == '\u{a0}'
    ||| c == '\u{1680}'
    ||| '\u{2000}' <= c <= '\u{200a}'
    ||| c == '\u{2028}'
    ||| c == '\u{2029}'
    ||| c == '\u{202f}'
    ||| c == '\u{205f}'
    ||| c == '\u{3000}'
}

/// A control character (the Unicode category Cc).
pub open spec fn is_ctrl(c: char) -> bool {
    c <= '\u{1f}' || '\u{7f}' <= c <= '\u{9f}'
}

/// A character from `0` to `9`.
pub open spec fn is_digit(c: char) -> bool {
    '0' <= c <= '9'
}

pub fn char_is_space(c: char) -> (r: bool)
    ensures
        r == is_space(c),
{
    ('\u{9}' <= c && c <= '\u{d}') || c == '\u{20}' || c == '\u{85}' || c == '\u{a0}' || c
        == '\u{1680}' || ('\u{2000}' <= c && c <= '\u{200a}') || c == '\u{2028}' || c == '\u{2029}'
        || c == '\u{202f}' || c == '\u{205f}' || c == '\u{3000}'
}

pub fn char_is_ctrl(c: char) -> (r: bool)
    ensures
        r == is_ctrl(c),
{
    c <= '\u{1f}' || ('\u{7f}' <= c && c <= '\u{9f}')
}

pub fn char_is_digit(c: char) -> (r: bool)
    ensures
        r == is_digit(c),
{
    '0' <= c && c <= '9'
}

// ---- strings and their characters ----

/// The characters of a string, in order.
pub fn chars_of(s: &str) -> (v: Vec<char>)
    ensures
        v@ == s@,
{
    let mut v: Vec<char> = Vec::new();
    for c in it: s.chars()
        invariant
            v@ == s@.take(it.index()),
            it.seq() == s@,
    {
        v.push(c);
    }
    v
}

/// The string made of the characters `v[from..to]`.
pub fn string_of(v: &Vec<char>, from: usize, to: usize) -> (s: String)
    requires
        from <= to <= v@.len(),
    ensures
        s@ == v@.subrange(from as int, to as int),
{
    let mut s = String::new();
    let mut i: usize = from;
    while i < to
        invariant
            from <= i <= to <= v@.len(),
            s@ == v@.subrange(from as int, i as int),
        decreases to - i,
    {
        s.push(v[i]);
        i += 1;
    }
    s
}

/// Whether two strings hold the same characters.
pub fn same(a: &str, b: &str) -> (r: bool)
    ensures
        r == (a@ == b@),
{
    let x = chars_of(a);
    let y = chars_of(b);
    if x.len() != y.len() {
        return false;
    }
    let mut i: usize = 0;
    while i < x.len()
        invariant
            x@ == a@,
            y@ == b@,
            i <= x@.len(),
            x@.len() == y@.len(),
            forall|j: int| 0 <= j < i ==> x@[j] == y@[j],
        decreases x.len() - i,
    {
        if x[i] != y[i] {
            return false;
        }
        i += 1;
    }
    assert(x@ =~= y@);
    true
}

/// The texts of a list of strings.
pub open spec fn texts(s: Seq<String>) -> Seq<Seq<char>> {
    Seq::new(s.len(), |i: int| s[i]@)
}

// ---- trimming ----

/// `s` without the leading characters that satisfy `p`.
pub open spec fn drop_start(s: Seq<char>, p: spec_fn(char) -> bool) -> Seq<char>
    decreases s.len(),
{
    if s.len() > 0 && p(s[0]) {
        drop_start(s.skip(1), p)
    } else {
        s
    }
}

/// `s` without the trailing characters that satisfy `p`.
pub open spec fn drop_end(s: Seq<char>, p: spec_fn(char) -> bool) -> Seq<char>
    decreases s.len(),
{
    if s.len() > 0 && p(s.last()) {
        drop_end(s.drop_last(), p)
    } else {
        s
    }
}

/// The predicate that holds of `x` alone.
pub open spec fn only(x: char) -> spec_fn(char) -> bool {
    |c: char| c == x
}

/// The predicate that holds of white space.
pub open spec fn space() -> spec_fn(char) -> bool {
    |c: char| is_space(c)
}

/// `s` without leading and trailing white space.
pub open spec fn trimmed(s: Seq<char>) -> Seq<char> {
    drop_end(drop_start(s, space()), space())
}

/// `s` without leading and trailing occurrences of `x`.
pub open spec fn trimmed_of(s: Seq<char>, x: char) -> Seq<char> {
    drop_end(drop_start(s, only(x)), only(x))
}

proof fn lemma_drop_start(s: Seq<char>, p: spec_fn(char) -> bool)
    ensures
        drop_start(s, p).len() > 0 ==> !p(drop_start(s, p)[0]),
    decreases s.len(),
{
    if s.len() > 0 && p(s[0]) {
        lemma_drop_start(s.skip(1), p);
    }
}

proof fn lemma_drop_end(s: Seq<char>, p: spec_fn(char) -> bool)
    ensures
        drop_end(s, p).len() > 0 ==> !p(drop_end(s, p).last()),
        drop_end(s, p).is_prefix_of(s),
    decreases s.len(),
{
    if s.len() > 0 && p(s.last()) {
        lemma_drop_end(s.drop_last(), p);
    }
}

/// A trimmed text has nothing to trim.
pub proof fn law_trimming_is_idempotent(s: Seq<char>)
    ensures
        trimmed(trimmed(s)) == trimmed(s),
{
    let a = drop_start(s, space());
    let t = trimmed(s);
    lemma_drop_start(s, space());
    lemma_drop_end(a, space());
    if t.len() > 0 {
        assert(t[0] == a[0]);
    }
}

proof fn lemma_drop_start_blank(s: Seq<char>)
    ensures
        drop_start(s, space()).len() == 0 <==> forall|i: int|
            0 <= i < s.len() ==> is_space(#[trigger] s[i]),
        drop_start(s, space()).len() > 0 ==> !is_space(drop_start(s, space())[0]),
        drop_start(s, space()).len() <= s.len(),
        drop_start(s, space()) == s.skip(s.len() - drop_start(s, space()).len()),
        forall|i: int|
            0 <= i < s.len() - drop_start(s, space()).len() ==> is_space(#[trigger] s[i]),
    decreases s.len(),
{
    if s.len() > 0 && is_space(s[0]) {
        let t = s.skip(1);
        lemma_drop_start_blank(t);
        let d = drop_start(t, space());
        assert(d == drop_start(s, space()));
        assert(s.skip(s.len() - d.len()) =~= t.skip(t.len() - d.len()));
        if d.len() == 0 {
            assert forall|i: int| 0 <= i < s.len() implies is_space(#[trigger] s[i]) by {
                if i > 0 {
                    assert(is_space(t[i - 1]));
                }
            }
        } else {
            let k = t.len() - d.len();
            assert(t[k] == d[0]);
            assert(s[k + 1] == d[0]);
        }
        assert forall|i: int| 0 <= i < s.len() - d.len() implies is_space(#[trigger] s[i]) by {
            if i > 0 {
                assert(is_space(t[i - 1]));
            }
        }
    } else {
        assert(s.skip(0) =~= s);
    }
}

proof fn lemma_drop_end_blank(s: Seq<char>)
    ensures
        drop_end(s, space()).len() <= s.len(),
        drop_end(s, space()) == s.take(drop_end(s, space()).len() as int),
        drop_end(s, space()).len() > 0 ==> !is_space(drop_end(s, space()).last()),
        forall|i: int|
            drop_end(s, space()).len() <= i < s.len() ==> is_space(#[trigger] s[i]),
    decreases s.len(),
{
    if s.len() > 0 && is_space(s.last()) {
        let t = s.drop_last();
        lemma_drop_end_blank(t);
        let d = drop_end(t, space());
        assert(s.take(d.len() as int) =~= t.take(d.len() as int));
        assert forall|i: int| d.len() <= i < s.len() implies is_space(#[trigger] s[i]) by {
            if i < s.len() - 1 {
                assert(is_space(t[i]));
            }
        }
    } else {
        assert(s.take(s.len() as int) =~= s);
    }
}

/// A text that holds nothing but white space is trimmed to nothing, and no other text is.
pub proof fn law_trimming_empties_blanks(s: Seq<char>)
    ensures
        trimmed(s).len() == 0 <==> forall|i: int|
            0 <= i < s.len() ==> is_space(#[trigger] s[i]),
{
    let a = drop_start(s, space());
    lemma_drop_start_blank(s);
    lemma_drop_end_blank(a);
    if a.len() > 0 {
        assert(!is_space(a[0]));
    }
}

/// **Trimming takes white space at the ends and nothing else**: the result is a stretch of the text,
/// all before it and behind it is white space, and it neither begins nor ends with white space.
pub proof fn law_trimming_takes_blanks_only(s: &str, r: String)
    requires
        call_ensures(trim, (s,), r),
    ensures
        r@.len() > 0 ==> !is_space(r@[0]) && !is_space(r@.last()),
        exists|a: int, b: int|
            #![trigger s@.subrange(a, b)]
            {
                &&& 0 <= a <= b <= s@.len()
                &&& r@ == s@.subrange(a, b)
                &&& forall|i: int| 0 <= i < a || b <= i < s@.len() ==> is_space(#[trigger] s@[i])
            },
{
    let d = drop_start(s@, space());
    lemma_drop_start_blank(s@);
    lemma_drop_end_blank(d);
    let a = s@.len() - d.len();
    let b = a + r@.len();
    assert(r@ =~= s@.subrange(a, b));
    assert forall|i: int| 0 <= i < a || b <= i < s@.len() implies is_space(#[trigger] s@[i]) by {
        if b <= i {
            assert(s@[i] == d[i - a]);
        }
    }
    if r@.len() > 0 {
        assert(r@[0] == d[0]);
    }
}

proof fn lemma_drop_start_step(s: Seq<char>, p: spec_fn(char) -> bool, i: int)
    requires
        0 <= i < s.len(),
        p(s[i]),
    ensures
        drop_start(s.skip(i), p) == drop_start(s.skip(i + 1), p),
{
    assert(s.skip(i).skip(1) =~= s.skip(i + 1));
    assert(s.skip(i)[0] == s[i]);
}

/// `s` without leading and trailing white space.
pub fn trim(s: &str) -> (r: String)
    ensures
        r@ == trimmed(s@),
{
    let v = chars_of(s);
    let ghost p = space();
    let mut i: usize = 0;
    assert(v@.skip(0) =~= v@);
    while i < v.len() && char_is_space(v[i])
        invariant
            i <= v@.len(),
            p == space(),
            drop_start(v@, p) == drop_start(v@.skip(i as int), p),
        decreases v.len() - i,
    {
        proof {
            lemma_drop_start_step(v@, p, i as int);
        }
        i += 1;
    }
    let ghost t = v@.skip(i as int);
    assert(drop_start(v@, p) == t);
    let mut j: usize = v.len();
    assert(v@.subrange(i as int, j as int) =~= t);
    while j > i && char_is_space(v[j - 1])
        invariant
            i <= j <= v@.len(),
            p == space(),
            drop_end(t, p) == drop_end(v@.subrange(i as int, j as int), p),
        decreases j,
    {
        assert(v@.subrange(i as int, j as int).drop_last() =~= v@.subrange(i as int, j - 1));
        j -= 1;
    }
    string_of(&v, i, j)
}

/// `s` without leading and trailing occurrences of `x`.
pub fn trim_of(s: &str, x: char) -> (r: String)
    ensures
        r@ == trimmed_of(s@, x),
{
    let v = chars_of(s);
    let ghost p = only(x);
    let mut i: usize = 0;
    assert(v@.skip(0) =~= v@);
    while i < v.len() && v[i] == x
        invariant
            i <= v@.len(),
            p == only(x),
            drop_start(v@, p) == drop_start(v@.skip(i as int), p),
        decreases v.len() - i,
    {
        proof {
            lemma_drop_start_step(v@, p, i as int);
        }
        i += 1;
    }
    let ghost t = v@.skip(i as int);
    let mut j: usize = v.len();
    assert(v@.subrange(i as int, j as int) =~= t);
    while j > i && v[j - 1] == x
        invariant
            i <= j <= v@.len(),
            p == only(x),
            drop_end(t, p) == drop_end(v@.subrange(i as int, j as int), p),
        decreases j,
    {
        assert(v@.subrange(i as int, j as int).drop_last() =~= v@.subrange(i as int, j - 1));
        j -= 1;
    }
    string_of(&v, i, j)
}

// ---- searching ----

/// `p` stands in `s` at position `i`.
pub open spec fn matches_at(s: Seq<char>, p: Seq<char>, i: int) -> bool {
    0 <= i && i + p.len() <= s.len() && s.subrange(i, i + p.len()) == p
}

/// The first position of `p` in `s` that is not before `i`.
pub open spec fn find_from(s: Seq<char>, p: Seq<char>, i: int) -> Option<int>
    decreases s.len() + 1 - i,
{
    if i < 0 || i + p.len() > s.len() {
        None
    } else if matches_at(s, p, i) {
        Some(i)
    } else {
        find_from(s, p, i + 1)
    }
}

/// The first position of `p` in `s`.
pub open spec fn find(s: Seq<char>, p: Seq<char>) -> Option<int> {
    find_from(s, p, 0)
}

/// `p` occurs in `s`.
pub open spec fn has(s: Seq<char>, p: Seq<char>) -> bool {
    find(s, p) is Some
}

/// `find_from` gives the least position at which `p` stands, and none where there is none.
pub proof fn lemma_find_from(s: Seq<char>, p: Seq<char>, i: int)
    requires
        0 <= i,
    ensures
        match find_from(s, p, i) {
            Some(k) => i <= k && matches_at(s, p, k) && forall|j: int|
                i <= j < k ==> !matches_at(s, p, j),
            None => forall|j: int| i <= j ==> !matches_at(s, p, j),
        },
    decreases s.len() + 1 - i,
{
    if i + p.len() <= s.len() && !matches_at(s, p, i) {
        lemma_find_from(s, p, i + 1);
    }
}

fn match_at(v: &Vec<char>, p: &Vec<char>, i: usize) -> (r: bool)
    requires
        i <= v@.len(),
    ensures
        r == matches_at(v@, p@, i as int),
{
    if v.len() - i < p.len() {
        return false;
    }
    let mut k: usize = 0;
    while k < p.len()
        invariant
            i + p.len() <= v.len(),
            k <= p@.len(),
            forall|j: int| 0 <= j < k ==> v@[i + j] == p@[j],
        decreases p.len() - k,
    {
        if v[i + k] != p[k] {
            assert(v@.subrange(i as int, i + p@.len())[k as int] != p@[k as int]);
            return false;
        }
        k += 1;
    }
    assert(v@.subrange(i as int, i + p@.len()) =~= p@);
    true
}

fn find_chars(v: &Vec<char>, p: &Vec<char>, from: usize) -> (r: Option<usize>)
    requires
        from <= v@.len(),
    ensures
        match r {
            Some(k) => find_from(v@, p@, from as int) == Some(k as int) && from <= k && k + p@.len()
                <= v@.len(),
            None => find_from(v@, p@, from as int) is None,
        },
{
    let mut i: usize = from;
    loop
        invariant
            from <= i <= v@.len(),
            find_from(v@, p@, from as int) == find_from(v@, p@, i as int),
        decreases v.len() - i,
    {
        if match_at(v, p, i) {
            return Some(i);
        }
        if i == v.len() {
            proof {
                lemma_find_from(v@, p@, i as int);
            }
            return None;
        }
        proof {
            lemma_find_from(v@, p@, i as int);
            lemma_find_from(v@, p@, i + 1);
        }
        i += 1;
    }
}

/// Whether `p` occurs in `s`.
pub fn contains(s: &str, p: &str) -> (r: bool)
    ensures
        r == has(s@, p@),
{
    let v = chars_of(s);
    let q = chars_of(p);
    find_chars(&v, &q, 0).is_some()
}

/// Whether the character `c` occurs in `s`.
pub fn contains_char(s: &str, c: char) -> (r: bool)
    ensures
        r == s@.contains(c),
{
    let v = chars_of(s);
    let mut i: usize = 0;
    while i < v.len()
        invariant
            v@ == s@,
            i <= v@.len(),
            forall|j: int| 0 <= j < i ==> v@[j] != c,
        decreases v.len() - i,
    {
        if v[i] == c {
            assert(s@[i as int] == c);
            return true;
        }
        i += 1;
    }
    false
}

/// Whether `s` begins with `p`.
pub fn starts_with(s: &str, p: &str) -> (r: bool)
    ensures
        r == p@.is_prefix_of(s@),
{
    let v = chars_of(s);
    let q = chars_of(p);
    let r = match_at(&v, &q, 0);
    proof {
        if r {
            assert(p@ =~= s@.subrange(0, p@.len() as int));
        } else if p@.is_prefix_of(s@) {
            assert(v@.subrange(0, q@.len() as int) =~= q@);
        }
    }
    r
}

/// What follows `p` in `s`, where `s` begins with `p`.
pub open spec fn after_prefix(s: Seq<char>, p: Seq<char>) -> Option<Seq<char>> {
    if p.is_prefix_of(s) {
        Some(s.skip(p.len() as int))
    } else {
        None
    }
}

/// What stands before `p` in `s`, where `s` ends with `p`.
pub open spec fn before_suffix(s: Seq<char>, p: Seq<char>) -> Option<Seq<char>> {
    if p.is_suffix_of(s) {
        Some(s.take(s.len() - p.len()))
    } else {
        None
    }
}

/// The text of an optional string.
pub open spec fn opt_text(s: Option<String>) -> Option<Seq<char>> {
    match s {
        Some(x) => Some(x@),
        None => None,
    }
}

/// What follows `p` in `s`, where `s` begins with `p`.
pub fn strip_prefix(s: &str, p: &str) -> (r: Option<String>)
    ensures
        opt_text(r) == after_prefix(s@, p@),
{
    if starts_with(s, p) {
        let v = chars_of(s);
        let n: usize = chars_of(p).len();
        let t = string_of(&v, n, v.len());
        assert(t@ =~= s@.skip(p@.len() as int));
        Some(t)
    } else {
        None
    }
}

/// What stands before `p` in `s`, where `s` ends with `p`.
pub fn strip_suffix(s: &str, p: &str) -> (r: Option<String>)
    ensures
        opt_text(r) == before_suffix(s@, p@),
{
    let v = chars_of(s);
    let q = chars_of(p);
    if q.len() > v.len() {
        return None;
    }
    let n: usize = v.len() - q.len();
    if match_at(&v, &q, n) {
        assert(q@ =~= v@.subrange(v@.len() - q@.len(), v@.len() as int));
        let t = string_of(&v, 0, n);
        assert(t@ =~= s@.take(s@.len() - p@.len()));
        Some(t)
    } else {
        proof {
            if p@.is_suffix_of(s@) {
                assert(v@.subrange(n as int, n + q@.len()) =~= q@);
            }
        }
        None
    }
}

// ---- splitting ----

/// The pieces of `s` between the occurrences of `p`, which is not empty.
pub open spec fn pieces(s: Seq<char>, p: Seq<char>) -> Seq<Seq<char>>
    decreases s.len(),
{
    match find(s, p) {
        Some(i) => if p.len() > 0 && 0 <= i && i + p.len() <= s.len() {
            seq![s.take(i)] + pieces(s.skip(i + p.len()), p)
        } else {
            seq![s]
        },
        None => seq![s],
    }
}

/// A line without the carriage return that belongs to its line ending.
pub open spec fn without_cr(s: Seq<char>) -> Seq<char> {
    if s.len() > 0 && s.last() == '\r' {
        s.drop_last()
    } else {
        s
    }
}

/// The lines of a text: a line ends at a newline or at the end of the text, and a carriage return
/// before a newline belongs to the line ending.
pub open spec fn lines(s: Seq<char>) -> Seq<Seq<char>>
    decreases s.len(),
{
    if s.len() == 0 {
        Seq::empty()
    } else {
        match find(s, seq!['\n']) {
            Some(i) => if 0 <= i < s.len() {
                seq![without_cr(s.take(i))] + lines(s.skip(i + 1))
            } else {
                seq![s]
            },
            None => seq![s],
        }
    }
}

/// Searching on from a position is searching in the rest.
proof fn lemma_find_shift(s: Seq<char>, p: Seq<char>, k: int, i: int)
    requires
        0 <= k <= s.len(),
        0 <= i,
    ensures
        find_from(s, p, k + i) == (match find_from(s.skip(k), p, i) {
            Some(j) => Some(k + j),
            None => None,
        }),
    decreases s.len() + 1 - i,
{
    let t = s.skip(k);
    if k + i + p.len() <= s.len() {
        assert(t.subrange(i, i + p.len()) =~= s.subrange(k + i, k + i + p.len()));
        if !matches_at(t, p, i) {
            lemma_find_shift(s, p, k, i + 1);
        }
    }
}

/// The pieces of `s` between the occurrences of `p`.
pub fn split_on(s: &str, p: &str) -> (r: Vec<String>)
    requires
        p@.len() > 0,
    ensures
        texts(r@) == pieces(s@, p@),
{
    let v = chars_of(s);
    let q = chars_of(p);
    let mut out: Vec<String> = Vec::new();
    let mut from: usize = 0;
    assert(v@.skip(0) =~= v@);
    assert(texts(out@) + pieces(v@.skip(0), q@) =~= pieces(v@, q@));
    loop
        invariant
            q@.len() > 0,
            v@ == s@,
            q@ == p@,
            from <= v@.len(),
            texts(out@) + pieces(v@.skip(from as int), q@) == pieces(v@, q@),
        decreases v.len() - from,
    {
        proof {
            lemma_find_shift(v@, q@, from as int, 0);
            lemma_find_from(v@, q@, from as int);
        }
        let ghost rest = v@.skip(from as int);
        let ghost before = texts(out@);
        match find_chars(&v, &q, from) {
            Some(i) => {
                let piece = string_of(&v, from, i);
                assert(piece@ =~= rest.take(i - from));
                assert(rest.skip(i - from + q@.len()) =~= v@.skip(i + q@.len()));
                out.push(piece);
                from = i + q.len();
                assert(texts(out@) =~= before.push(piece@));
                assert(texts(out@) + pieces(v@.skip(from as int), q@) =~= before + pieces(rest, q@));
            },
            None => {
                let piece = string_of(&v, from, v.len());
                assert(piece@ =~= rest);
                out.push(piece);
                assert(texts(out@) =~= before + pieces(rest, q@));
                return out;
            },
        }
    }
}

/// The lines of a text.
pub fn lines_of(s: &str) -> (r: Vec<String>)
    ensures
        texts(r@) == lines(s@),
{
    let v = chars_of(s);
    let mut q: Vec<char> = Vec::new();
    q.push('\n');
    assert(q@ =~= seq!['\n']);
    let mut out: Vec<String> = Vec::new();
    let mut from: usize = 0;
    assert(v@.skip(0) =~= v@);
    assert(texts(out@) + lines(v@.skip(0)) =~= lines(v@));
    while from < v.len()
        invariant
            v@ == s@,
            q@ == seq!['\n'],
            from <= v@.len(),
            texts(out@) + lines(v@.skip(from as int)) == lines(v@),
        decreases v.len() - from,
    {
        proof {
            lemma_find_shift(v@, q@, from as int, 0);
            lemma_find_from(v@, q@, from as int);
        }
        let ghost rest = v@.skip(from as int);
        let ghost before = texts(out@);
        match find_chars(&v, &q, from) {
            Some(i) => {
                let end: usize = if i > from && v[i - 1] == '\r' {
                    i - 1
                } else {
                    i
                };
                let line = string_of(&v, from, end);
                assert(line@ =~= without_cr(rest.take(i - from)));
                assert(rest.skip(i - from + 1) =~= v@.skip(i + 1));
                out.push(line);
                from = i + 1;
                assert(texts(out@) =~= before.push(line@));
                assert(texts(out@) + lines(v@.skip(from as int)) =~= before + lines(rest));
            },
            None => {
                let line = string_of(&v, from, v.len());
                assert(line@ =~= rest);
                out.push(line);
                from = v.len();
                assert(lines(v@.skip(from as int)) =~= Seq::<Seq<char>>::empty());
                assert(texts(out@) + lines(v@.skip(from as int)) =~= before + lines(rest));
            },
        }
    }
    assert(lines(v@.skip(from as int)) =~= Seq::<Seq<char>>::empty());
    assert(texts(out@) =~= texts(out@) + lines(v@.skip(from as int)));
    out
}

// ---- words ----

/// The length of the first word: what stands before the first white space.
pub open spec fn word_len(s: Seq<char>) -> nat
    decreases s.len(),
{
    if s.len() == 0 || is_space(s[0]) {
        0
    } else {
        1 + word_len(s.skip(1))
    }
}

/// The first word of a text.
pub open spec fn first_word(s: Seq<char>) -> Option<Seq<char>> {
    let t = drop_start(s, space());
    if word_len(t) == 0 {
        None
    } else {
        Some(t.take(word_len(t) as int))
    }
}

/// The words of a text: the stretches without white space.
pub open spec fn words(s: Seq<char>) -> Seq<Seq<char>>
    decreases s.len(),
{
    let t = drop_start(s, space());
    if t.len() == 0 || word_len(t) == 0 {
        Seq::empty()
    } else {
        proof {
            lemma_drop_start_len(s, space());
            lemma_word_len(t);
        }
        seq![t.take(word_len(t) as int)] + words(t.skip(word_len(t) as int))
    }
}

pub proof fn lemma_drop_start_len(s: Seq<char>, p: spec_fn(char) -> bool)
    ensures
        drop_start(s, p).len() <= s.len(),
        drop_start(s, p).len() > 0 ==> !p(drop_start(s, p)[0]),
        drop_start(s, p) == s.skip(s.len() - drop_start(s, p).len()),
    decreases s.len(),
{
    if s.len() > 0 && p(s[0]) {
        lemma_drop_start_len(s.skip(1), p);
        let d = drop_start(s, p);
        assert(s.skip(1).skip(s.skip(1).len() - d.len()) =~= s.skip(s.len() - d.len()));
    } else {
        assert(s.skip(0) =~= s);
    }
}

pub proof fn lemma_word_len(s: Seq<char>)
    ensures
        word_len(s) <= s.len(),
    decreases s.len(),
{
    if s.len() > 0 && !is_space(s[0]) {
        lemma_word_len(s.skip(1));
    }
}

/// The first word of a text.
pub fn first_word_of(s: &str) -> (r: Option<String>)
    ensures
        opt_text(r) == first_word(s@),
{
    let v = chars_of(s);
    let ghost p = space();
    let mut i: usize = 0;
    assert(v@.skip(0) =~= v@);
    while i < v.len() && char_is_space(v[i])
        invariant
            i <= v@.len(),
            p == space(),
            drop_start(v@, p) == drop_start(v@.skip(i as int), p),
        decreases v.len() - i,
    {
        assert(v@.skip(i as int).skip(1) =~= v@.skip(i + 1));
        assert(v@.skip(i as int)[0] == v@[i as int]);
        i += 1;
    }
    let ghost t = v@.skip(i as int);
    assert(drop_start(v@, p) == t);
    let mut j: usize = i;
    assert(v@.skip(j as int) =~= t);
    while j < v.len() && !char_is_space(v[j])
        invariant
            i <= j <= v@.len(),
            t == v@.skip(i as int),
            word_len(t) == j - i + word_len(v@.skip(j as int)),
        decreases v.len() - j,
    {
        assert(v@.skip(j as int).skip(1) =~= v@.skip(j + 1));
        j += 1;
    }
    if j == i {
        None
    } else {
        let w = string_of(&v, i, j);
        assert(w@ =~= t.take(j - i));
        Some(w)
    }
}

/// The words of a text.
pub fn words_of(s: &str) -> (r: Vec<String>)
    ensures
        texts(r@) == words(s@),
{
    let v = chars_of(s);
    let ghost p = space();
    let mut out: Vec<String> = Vec::new();
    let mut i: usize = 0;
    assert(v@.skip(0) =~= v@);
    assert(texts(out@) + words(v@.skip(0)) =~= words(v@));
    loop
        invariant
            v@ == s@,
            p == space(),
            i <= v@.len(),
            texts(out@) + words(v@.skip(i as int)) == words(v@),
        decreases v.len() - i,
    {
        let ghost rest = v@.skip(i as int);
        let ghost start = i as int;
        let ghost done = texts(out@);
        assert(rest.skip(0) =~= rest);
        while i < v.len() && char_is_space(v[i])
            invariant
                start <= i <= v@.len(),
                p == space(),
                rest == v@.skip(start),
                drop_start(rest, p) == drop_start(v@.skip(i as int), p),
            decreases v.len() - i,
        {
            proof {
                lemma_drop_start_step(v@, p, i as int);
            }
            i += 1;
        }
        let ghost t = v@.skip(i as int);
        assert(drop_start(rest, p) == t);
        if i == v.len() {
            assert(t.len() == 0);
            assert(texts(out@) =~= done + words(rest));
            return out;
        }
        let begin: usize = i;
        assert(v@.skip(i as int) =~= t);
        while i < v.len() && !char_is_space(v[i])
            invariant
                begin <= i <= v@.len(),
                t == v@.skip(begin as int),
                word_len(t) == i - begin + word_len(v@.skip(i as int)),
            decreases v.len() - i,
        {
            assert(v@.skip(i as int).skip(1) =~= v@.skip(i + 1));
            i += 1;
        }
        assert(word_len(v@.skip(i as int)) == 0);
        let w = string_of(&v, begin, i);
        assert(t[0] == v@[begin as int]);
        assert(word_len(t) > 0);
        assert(w@ =~= t.take(word_len(t) as int));
        assert(t.skip(word_len(t) as int) =~= v@.skip(i as int));
        out.push(w);
        assert(texts(out@) =~= done.push(w@));
        assert(texts(out@) + words(v@.skip(i as int)) =~= done + words(rest));
    }
}

// ---- building ----

/// `s` with every occurrence of `x` replaced by `w`.
pub open spec fn replaced(s: Seq<char>, x: char, w: Seq<char>) -> Seq<char>
    decreases s.len(),
{
    if s.len() == 0 {
        Seq::empty()
    } else {
        replaced(s.drop_last(), x, w) + (if s.last() == x {
            w
        } else {
            seq![s.last()]
        })
    }
}

/// `s` with every occurrence of `x` replaced by `w`.
pub fn replace_char(s: &str, x: char, w: &str) -> (r: String)
    ensures
        r@ == replaced(s@, x, w@),
{
    let v = chars_of(s);
    let mut r = String::new();
    let mut i: usize = 0;
    while i < v.len()
        invariant
            i <= v@.len(),
            r@ == replaced(v@.take(i as int), x, w@),
        decreases v.len() - i,
    {
        assert(v@.take(i + 1).drop_last() =~= v@.take(i as int));
        let ghost before = r@;
        if v[i] == x {
            r.append(w);
        } else {
            r.push(v[i]);
            assert(r@ =~= before + seq![v@[i as int]]);
        }
        i += 1;
    }
    assert(v@.take(i as int) =~= v@);
    r
}

/// **Only the character that is replaced changes.** One character more puts itself behind what there
/// was, or, where it is the one to be replaced, what stands for it.
pub proof fn law_replacing_goes_character_by_character(
    a: &str,
    b: &str,
    c: char,
    x: char,
    w: &str,
    r: String,
    s: String,
)
    requires
        call_ensures(replace_char, (a, x, w), r),
        call_ensures(replace_char, (b, x, w), s),
        b@ == a@.push(c),
    ensures
        a@.len() == 0 ==> r@.len() == 0,
        s@ == r@ + (if c == x {
            w@
        } else {
            seq![c]
        }),
{
    assert(b@.drop_last() =~= a@);
}

/// A text that begins with a word has it as its first word.
pub proof fn lemma_first_word(w: Seq<char>, rest: Seq<char>)
    requires
        w.len() > 0,
        forall|i: int| 0 <= i < w.len() ==> !is_space(#[trigger] w[i]),
        rest.len() == 0 || is_space(rest[0]),
    ensures
        first_word(w + rest) == Some(w),
{
    let s = w + rest;
    assert(!is_space(s[0]));
    assert(drop_start(s, space()) == s);
    lemma_word_is(w, rest);
    assert(s.take(w.len() as int) =~= w);
}

proof fn lemma_word_is(w: Seq<char>, rest: Seq<char>)
    requires
        forall|i: int| 0 <= i < w.len() ==> !is_space(#[trigger] w[i]),
        rest.len() == 0 || is_space(rest[0]),
    ensures
        word_len(w + rest) == w.len(),
    decreases w.len(),
{
    let s = w + rest;
    if w.len() == 0 {
        assert(s =~= rest);
    } else {
        let v = w.skip(1);
        assert forall|i: int| 0 <= i < v.len() implies !is_space(#[trigger] v[i]) by {
            assert(v[i] == w[i + 1]);
        }
        lemma_word_is(v, rest);
        assert(s.skip(1) =~= v + rest);
        assert(s[0] == w[0]);
    }
}

/// The texts one after the other with `sep` between them.
pub open spec fn joined(s: Seq<Seq<char>>, sep: Seq<char>) -> Seq<char>
    decreases s.len(),
{
    if s.len() == 0 {
        Seq::empty()
    } else if s.len() == 1 {
        s[0]
    } else {
        joined(s.drop_last(), sep) + sep + s.last()
    }
}

/// The line stands in the text at a place.
pub open spec fn line_at(s: Seq<char>, line: Seq<char>, i: int) -> bool {
    0 <= i && i + line.len() <= s.len() && s.subrange(i, i + line.len()) == line && (i == 0 || s[i
        - 1] == '\n') && (i + line.len() == s.len() || s[i + line.len()] == '\n')
}

/// The text has the line, from its beginning to its end.
pub open spec fn has_line(s: Seq<char>, line: Seq<char>) -> bool {
    exists|i: int| #[trigger] line_at(s, line, i)
}

/// A text behind which a line is put has its own lines and that one.
proof fn lemma_line_added(s: Seq<char>, last: Seq<char>)
    ensures
        has_line(s + "\n"@ + last, last),
        forall|line: Seq<char>|
            #![trigger has_line(s, line)]
            has_line(s, line) ==> has_line(s + "\n"@ + last, line),
{
    let t = s + "\n"@ + last;
    reveal_strlit("\n");
    let n = s.len() as int;
    assert(t[n] == '\n');
    assert(t.subrange(n + 1, n + 1 + last.len()) =~= last);
    assert(line_at(t, last, n + 1));
    assert forall|line: Seq<char>| #![trigger has_line(s, line)] has_line(s, line) implies has_line(
        t,
        line,
    ) by {
        let i = choose|i: int| #[trigger] line_at(s, line, i);
        assert(t.subrange(i, i + line.len()) =~= s.subrange(i, i + line.len()));
        assert(line_at(t, line, i));
    }
}

/// **Lines that are put together can be told apart again**: each of them is a line of the whole.
pub proof fn law_joined_lines_are_lines(s: Seq<Seq<char>>, i: int)
    requires
        0 <= i < s.len(),
    ensures
        has_line(joined(s, "\n"@), s[i]),
    decreases s.len(),
{
    if s.len() == 1 {
        assert(s[0].subrange(0, s[0].len() as int) =~= s[0]);
        assert(line_at(s[0], s[0], 0));
    } else {
        lemma_line_added(joined(s.drop_last(), "\n"@), s.last());
        if i < s.len() - 1 {
            law_joined_lines_are_lines(s.drop_last(), i);
        }
    }
}

/// **What is put behind comes behind**: a list with one text more is the list, then what stands
/// between, then that text.
pub proof fn law_joined_grows(a: &[String], b: &[String], sep: &str, r: String, s: String)
    requires
        call_ensures(join, (a, sep), r),
        call_ensures(join, (b, sep), s),
        b@.len() == a@.len() + 1,
        b@.take(a@.len() as int) == a@,
    ensures
        a@.len() == 0 ==> r@.len() == 0 && s@ == b@[0]@,
        a@.len() > 0 ==> s@ == r@ + sep@ + b@[a@.len() as int]@,
{
    assert(texts(b@).drop_last() =~= texts(b@.take(a@.len() as int)));
}

/// The strings one after the other with `sep` between them.
pub fn join(parts: &[String], sep: &str) -> (r: String)
    ensures
        r@ == joined(texts(parts@), sep@),
{
    let mut r = String::new();
    let mut i: usize = 0;
    while i < parts.len()
        invariant
            i <= parts@.len(),
            r@ == joined(texts(parts@).take(i as int), sep@),
        decreases parts.len() - i,
    {
        assert(texts(parts@).take(i + 1).drop_last() =~= texts(parts@).take(i as int));
        if i > 0 {
            r.append(sep);
        }
        r.append(&parts[i]);
        proof {
            if i == 0 {
                assert(r@ =~= parts@[0]@);
            }
        }
        i += 1;
    }
    assert(texts(parts@).take(i as int) =~= texts(parts@));
    r
}

/// Appends a string to a list.
pub fn push_text(v: &mut Vec<String>, s: String)
    ensures
        texts(final(v)@) == texts(old(v)@).push(s@),
{
    let ghost before = texts(v@);
    v.push(s);
    assert(texts(v@) =~= before.push(s@));
}

/// A list of no strings.
pub fn no_texts() -> (r: Vec<String>)
    ensures
        texts(r@) == Seq::<Seq<char>>::empty(),
{
    let r: Vec<String> = Vec::new();
    assert(texts(r@) =~= Seq::empty());
    r
}

/// Two texts one after the other.
pub fn cat2(a: &str, b: &str) -> (r: String)
    ensures
        r@ == a@ + b@,
{
    let mut s = a.to_owned();
    s.append(b);
    s
}

/// Three texts one after the other.
pub fn cat3(a: &str, b: &str, c: &str) -> (r: String)
    ensures
        r@ == a@ + b@ + c@,
{
    let mut s = a.to_owned();
    s.append(b);
    s.append(c);
    s
}

/// Four texts one after the other.
pub fn cat4(a: &str, b: &str, c: &str, d: &str) -> (r: String)
    ensures
        r@ == a@ + b@ + c@ + d@,
{
    let mut s = cat3(a, b, c);
    s.append(d);
    s
}

/// Five texts one after the other.
pub fn cat5(a: &str, b: &str, c: &str, d: &str, e: &str) -> (r: String)
    ensures
        r@ == a@ + b@ + c@ + d@ + e@,
{
    let mut s = cat4(a, b, c, d);
    s.append(e);
    s
}

/// Whether a string holds nothing.
pub fn is_empty(s: &str) -> (r: bool)
    ensures
        r == (s@.len() == 0),
{
    chars_of(s).len() == 0
}

// ---- bytes ----

/// The number of bytes that a text takes.
pub open spec fn bytes(s: Seq<char>) -> nat {
    vstd::utf8::encode_utf8(s).len()
}

/// The number of bytes that a text takes.
pub fn byte_len(s: &str) -> (r: usize)
    ensures
        r == bytes(s@),
{
    s.as_bytes().len()
}

/// The number of bytes that a character takes.
pub open spec fn width(c: char) -> nat {
    vstd::utf8::encode_utf8(seq![c]).len()
}

/// How many characters fit into that many bytes.
pub open spec fn fitting(s: Seq<char>, max: nat) -> nat
    decreases s.len(),
{
    if s.len() == 0 || width(s[0]) > max {
        0
    } else {
        1 + fitting(s.skip(1), (max - width(s[0])) as nat)
    }
}

/// The longest beginning of a text that fits into that many bytes.
pub open spec fn fitted(s: Seq<char>, max: nat) -> Seq<char> {
    s.take(fitting(s, max) as int)
}

fn char_width(c: char) -> (r: usize)
    ensures
        r == width(c),
        1 <= r <= 4,
{
    proof {
        let s = seq![c];
        assert(s.skip(1) =~= Seq::empty());
        assert(s.drop_first() =~= Seq::empty());
        reveal_with_fuel(vstd::utf8::encode_utf8, 2);
    }
    let n: u32 = c as u32;
    if n < 0x80 {
        1
    } else if n < 0x800 {
        2
    } else if n < 0x10000 {
        3
    } else {
        4
    }
}

pub proof fn lemma_bytes_head(s: Seq<char>)
    requires
        s.len() > 0,
    ensures
        bytes(s) == width(s[0]) + bytes(s.skip(1)),
{
    let h = seq![s[0]];
    assert(h.drop_first() =~= Seq::empty());
    assert(s.drop_first() =~= s.skip(1));
    reveal_with_fuel(vstd::utf8::encode_utf8, 2);
}

proof fn lemma_width_ascii(c: char)
    requires
        c < '\u{80}',
    ensures
        width(c) == 1,
{
    let s = seq![c];
    assert(s.drop_first() =~= Seq::empty());
    reveal_with_fuel(vstd::utf8::encode_utf8, 2);
}

/// An ASCII text takes as many bytes as it has characters.
pub proof fn lemma_bytes_ascii(s: Seq<char>)
    requires
        forall|i: int| 0 <= i < s.len() ==> (#[trigger] s[i]) < '\u{80}',
    ensures
        bytes(s) == s.len(),
    decreases s.len(),
{
    if s.len() > 0 {
        lemma_bytes_head(s);
        lemma_bytes_ascii(s.skip(1));
        lemma_width_ascii(s[0]);
    } else {
        reveal_with_fuel(vstd::utf8::encode_utf8, 1);
    }
}

/// What fits into a limit of bytes takes no more of them, is how the text begins, and with one
/// character more would not fit.
pub proof fn law_fitted_fits(s: Seq<char>, max: nat)
    ensures
        fitting(s, max) <= s.len(),
        bytes(fitted(s, max)) <= max,
        fitted(s, max).is_prefix_of(s),
        fitting(s, max) < s.len() ==> bytes(s.take(fitting(s, max) + 1int)) > max,
    decreases s.len(),
{
    let n = fitting(s, max);
    if s.len() == 0 || width(s[0]) > max {
        assert(s.take(0) =~= Seq::empty());
        if s.len() > 0 {
            lemma_bytes_head(s.take(1));
            assert(s.take(1)[0] == s[0]);
        }
    } else {
        let m = (max - width(s[0])) as nat;
        law_fitted_fits(s.skip(1), m);
        let t = s.take(n as int);
        lemma_bytes_head(t);
        assert(t.skip(1) =~= s.skip(1).take(fitting(s.skip(1), m) as int));
        if n < s.len() {
            let u = s.take(n + 1int);
            lemma_bytes_head(u);
            assert(u.skip(1) =~= s.skip(1).take(fitting(s.skip(1), m) + 1int));
        }
    }
}

/// Two texts one after the other take the bytes of both.
pub proof fn lemma_bytes_add(a: Seq<char>, b: Seq<char>)
    ensures
        bytes(a + b) == bytes(a) + bytes(b),
    decreases a.len(),
{
    if a.len() == 0 {
        assert(a + b =~= b);
        reveal_with_fuel(vstd::utf8::encode_utf8, 1);
    } else {
        lemma_bytes_head(a);
        lemma_bytes_head(a + b);
        assert((a + b).skip(1) =~= a.skip(1) + b);
        lemma_bytes_add(a.skip(1), b);
    }
}

/// The longest beginning of a text that fits into that many bytes.
pub fn fit(s: &str, max: usize) -> (r: String)
    ensures
        r@ == fitted(s@, max as nat),
{
    let v = chars_of(s);
    let mut i: usize = 0;
    let mut left: usize = max;
    assert(v@.skip(0) =~= v@);
    loop
        invariant
            v@ == s@,
            i <= v@.len(),
            fitting(v@, max as nat) == i + fitting(v@.skip(i as int), left as nat),
        ensures
            i <= v@.len(),
            fitting(v@, max as nat) == i,
        decreases v.len() - i,
    {
        if i == v.len() {
            break;
        }
        let w: usize = char_width(v[i]);
        if w > left {
            break;
        }
        assert(v@.skip(i as int).skip(1) =~= v@.skip(i + 1));
        left -= w;
        i += 1;
    }
    let r = string_of(&v, 0, i);
    assert(r@ =~= v@.take(i as int));
    r
}

// ---- laws of searching and splitting ----

/// **A text holds another where it can be parted around it**, and only there.
pub proof fn law_contained_text_stands_somewhere(
    s: &str,
    p: &str,
    a: Seq<char>,
    b: Seq<char>,
    r: bool,
)
    requires
        call_ensures(contains, (s, p), r),
    ensures
        s@ == a + p@ + b ==> r,
        r ==> exists|i: int|
            #![trigger s@.subrange(i, i + p@.len())]
            0 <= i && i + p@.len() <= s@.len() && s@.subrange(i, i + p@.len()) == p@,
{
    lemma_find_from(s@, p@, 0);
    if s@ == a + p@ + b {
        let i = a.len() as int;
        assert(s@.subrange(i, i + p@.len()) =~= p@);
        assert(matches_at(s@, p@, i));
    }
    if r {
        let i = find(s@, p@)->0;
        assert(s@.subrange(i, i + p@.len()) == p@);
    }
}

/// **What is left of a text without its beginning or its end is the rest of it**, and nothing is left
/// where it does not begin or end so.
pub proof fn law_stripped_text_is_the_rest(
    s: &str,
    p: &str,
    x: Seq<char>,
    begins: bool,
    after: Option<String>,
    before: Option<String>,
)
    requires
        call_ensures(starts_with, (s, p), begins),
        call_ensures(strip_prefix, (s, p), after),
        call_ensures(strip_suffix, (s, p), before),
    ensures
        s@ == p@ + x ==> begins && (after matches Some(t) && t@ == x),
        s@ == x + p@ ==> (before matches Some(t) && t@ == x),
        after matches Some(t) ==> s@ == p@ + t@,
        before matches Some(t) ==> s@ == t@ + p@,
        begins == (after is Some),
{
    if s@ == p@ + x {
        assert(s@.take(p@.len() as int) =~= p@);
        assert(s@.skip(p@.len() as int) =~= x);
    }
    if s@ == x + p@ {
        assert(s@.take(s@.len() - p@.len()) =~= x);
        assert(s@.subrange(s@.len() - p@.len(), s@.len() as int) =~= p@);
    }
    if let Some(t) = after {
        assert(s@ =~= p@ + t@);
    }
    if let Some(t) = before {
        assert(s@ =~= t@ + p@);
    }
}

proof fn lemma_joined_first(x: Seq<char>, rest: Seq<Seq<char>>, sep: Seq<char>)
    requires
        rest.len() > 0,
    ensures
        joined(seq![x] + rest, sep) == x + sep + joined(rest, sep),
    decreases rest.len(),
{
    let all = seq![x] + rest;
    assert(all.last() == rest.last());
    if rest.len() == 1 {
        assert(all.drop_last() =~= seq![x]);
        assert(joined(seq![x], sep) == x);
        assert(joined(all, sep) =~= x + sep + rest[0]);
    } else {
        assert(all.drop_last() =~= seq![x] + rest.drop_last());
        lemma_joined_first(x, rest.drop_last(), sep);
        assert(joined(all, sep) =~= x + sep + joined(rest, sep));
    }
}

proof fn lemma_pieces(s: Seq<char>, p: Seq<char>)
    requires
        p.len() > 0,
    ensures
        pieces(s, p).len() > 0,
        joined(pieces(s, p), p) == s,
        forall|k: int| 0 <= k < pieces(s, p).len() ==> !self::has(#[trigger] pieces(s, p)[k], p),
    decreases s.len(),
{
    lemma_find_from(s, p, 0);
    match find(s, p) {
        Some(i) => {
            let rest = s.skip(i + p.len());
            lemma_pieces(rest, p);
            lemma_joined_first(s.take(i), pieces(rest, p), p);
            assert(s =~= s.take(i) + p + rest);
            let head = s.take(i);
            lemma_find_from(head, p, 0);
            if has(head, p) {
                let k = find(head, p)->0;
                assert(s.subrange(k, k + p.len()) =~= head.subrange(k, k + p.len()));
                assert(matches_at(s, p, k));
            }
            let all = pieces(s, p);
            assert forall|k: int| 0 <= k < all.len() implies !self::has(#[trigger] all[k], p) by {
                if k > 0 {
                    assert(all[k] == pieces(rest, p)[k - 1]);
                }
            }
        },
        None => {},
    }
}

/// **The pieces of a text make it up again**, with what parted them between them, and none of them
/// holds that.
pub proof fn law_pieces_make_up_the_text(
    s: &str,
    p: &str,
    r: Vec<String>,
    parts: &[String],
    whole: String,
    k: int,
)
    requires
        p@.len() > 0,
        call_ensures(split_on, (s, p), r),
        parts@ == r@,
        call_ensures(join, (parts, p), whole),
    ensures
        r@.len() > 0,
        whole@ == s@,
        0 <= k < r@.len() ==> !self::has(r@[k]@, p@),
{
    lemma_pieces(s@, p@);
    assert(texts(r@).len() == r@.len());
    if 0 <= k < r@.len() {
        assert(texts(r@)[k] == r@[k]@);
    }
}

/// **A text goes on with its next line.** A line and a newline before a text put that line before its
/// lines; a carriage return before the newline is not of the line.
pub proof fn law_lines_go_on(a: &str, b: &str, line: Seq<char>, r: Vec<String>, s: Vec<String>)
    requires
        call_ensures(lines_of, (a,), r),
        call_ensures(lines_of, (b,), s),
        !line.contains('\n'),
        b@ == line + seq!['\n'] + a@,
    ensures
        a@.len() == 0 ==> r@.len() == 0,
        s@.len() == r@.len() + 1,
        s@[0]@ == (if line.len() > 0 && line.last() == '\r' {
            line.drop_last()
        } else {
            line
        }),
        forall|i: int| 0 <= i < r@.len() ==> s@[i + 1]@ == (#[trigger] r@[i])@,
{
    let n = seq!['\n'];
    let t = b@;
    let k = line.len() as int;
    lemma_find_from(t, n, 0);
    assert(t.subrange(k, k + 1) =~= n);
    assert(matches_at(t, n, k));
    let i = find(t, n)->0;
    if i < k {
        assert(t.subrange(i, i + 1)[0] == '\n');
        assert(line[i] == '\n');
    }
    assert(i == k);
    assert(t.take(k) =~= line);
    assert(t.skip(k + 1) =~= a@);
    assert(texts(s@) == seq![without_cr(line)] + texts(r@));
    assert(texts(s@).len() == s@.len() && texts(r@).len() == r@.len());
    assert(texts(s@)[0] == s@[0]@);
    assert forall|j: int| 0 <= j < r@.len() implies s@[j + 1]@ == (#[trigger] r@[j])@ by {
        assert(texts(s@)[j + 1] == s@[j + 1]@);
        assert(texts(r@)[j] == r@[j]@);
    }
}

/// **The words of a text are its stretches without white space**: a word, white space and a text have
/// that word before the words of the text, and the first word is that one.
pub proof fn law_words_go_on(
    a: &str,
    b: &str,
    w: Seq<char>,
    c: char,
    r: Vec<String>,
    s: Vec<String>,
    first: Option<String>,
)
    requires
        call_ensures(words_of, (a,), r),
        call_ensures(words_of, (b,), s),
        call_ensures(first_word_of, (b,), first),
        w.len() > 0,
        forall|i: int| 0 <= i < w.len() ==> !is_space(#[trigger] w[i]),
        is_space(c),
        b@ == w + seq![c] + a@,
    ensures
        a@.len() == 0 ==> r@.len() == 0,
        first matches Some(x) && x@ == w,
        s@.len() == r@.len() + 1,
        s@[0]@ == w,
        forall|i: int| 0 <= i < r@.len() ==> s@[i + 1]@ == (#[trigger] r@[i])@,
{
    let rest = seq![c] + a@;
    assert(b@ =~= w + rest);
    lemma_first_word(w, rest);
    lemma_word_is(w, rest);
    assert(!is_space(b@[0]));
    assert(drop_start(b@, space()) == b@);
    assert(b@.take(w.len() as int) =~= w);
    assert(b@.skip(w.len() as int) =~= rest);
    assert(rest.skip(1) =~= a@);
    assert(space()(rest[0]));
    assert(drop_start(rest, space()) == drop_start(a@, space()));
    assert(words(rest) == words(a@));
    assert(texts(s@) == seq![w] + texts(r@));
    assert(texts(s@).len() == s@.len() && texts(r@).len() == r@.len());
    assert(texts(s@)[0] == s@[0]@);
    assert forall|j: int| 0 <= j < r@.len() implies s@[j + 1]@ == (#[trigger] r@[j])@ by {
        assert(texts(s@)[j + 1] == s@[j + 1]@);
        assert(texts(r@)[j] == r@[j]@);
    }
}

/// **What fits is as much as fits**: the longest beginning of the text with no more bytes than allowed.
pub proof fn law_fitting_text_is_the_longest(s: &str, max: usize, r: String)
    requires
        call_ensures(fit, (s, max), r),
    ensures
        r@.is_prefix_of(s@),
        bytes(r@) <= max,
        bytes(s@) <= max ==> r@ == s@,
        r@.len() < s@.len() ==> bytes(s@.take(r@.len() + 1int)) > max,
{
    law_fitted_fits(s@, max as nat);
    if r@.len() < s@.len() {
        let n = r@.len() + 1int;
        lemma_bytes_add(s@.take(n), s@.skip(n));
        assert(s@ =~= s@.take(n) + s@.skip(n));
    } else {
        assert(r@ =~= s@);
    }
}

/// **Digits, control characters and white space are told apart** as Unicode has them: nothing is two
/// of them, but for the control characters that are white space.
pub proof fn law_kinds_of_characters(c: char, digit: bool, control: bool, blank: bool)
    requires
        call_ensures(char_is_digit, (c,), digit),
        call_ensures(char_is_ctrl, (c,), control),
        call_ensures(char_is_space, (c,), blank),
    ensures
        digit == (48 <= c as u32 <= 57),
        control == (c as u32 <= 31 || 127 <= c as u32 <= 159),
        blank && (c as u32) < 128 <==> c as u32 == 32 || 9 <= c as u32 <= 13,
        blank && control ==> 9 <= c as u32 <= 13 || c as u32 == 133,
        digit ==> !control && !blank,
{
}

proof fn lemma_drop_start_push(s: Seq<char>, x: char)
    ensures
        drop_start(s, only(x)).len() > 0 ==> drop_start(s.push(x), only(x)) == drop_start(
            s,
            only(x),
        ).push(x),
        drop_start(s, only(x)).len() == 0 ==> drop_start(s.push(x), only(x)).len() == 0,
    decreases s.len(),
{
    let p = only(x);
    let t = s.push(x);
    if s.len() == 0 {
        assert(t.skip(1) =~= Seq::empty());
        assert(p(t[0]));
        assert(drop_start(t.skip(1), p) == t.skip(1));
    } else if p(s[0]) {
        assert(t[0] == s[0]);
        assert(t.skip(1) =~= s.skip(1).push(x));
        lemma_drop_start_push(s.skip(1), x);
    } else {
        assert(t[0] == s[0]);
    }
}

/// **A character is taken off both ends as often as it stands there**, and nothing else is.
pub proof fn law_character_is_taken_off_the_ends(
    s: &str,
    before: &str,
    behind: &str,
    x: char,
    r: String,
    a: String,
    b: String,
)
    requires
        call_ensures(trim_of, (s, x), r),
        call_ensures(trim_of, (before, x), a),
        call_ensures(trim_of, (behind, x), b),
        before@ == seq![x] + s@,
        behind@ == s@.push(x),
    ensures
        a@ == r@,
        b@ == r@,
        s@.len() == 0 ==> r@.len() == 0,
        s@.len() > 0 && s@[0] != x && s@.last() != x ==> r@ == s@,
{
    let p = only(x);
    assert(before@.skip(1) =~= s@);
    assert(p(before@[0]));
    lemma_drop_start_push(s@, x);
    let d = drop_start(s@, p);
    if d.len() > 0 {
        assert(d.push(x).drop_last() =~= d);
        assert(p(d.push(x).last()));
    } else {
        assert(d =~= Seq::empty());
        assert(drop_start(behind@, p) =~= Seq::empty());
    }
}

} // verus!
