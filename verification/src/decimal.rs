//! Integers written in decimal, and read back.

use crate::text;
use crate::text::{char_is_digit, chars_of};
use vstd::prelude::*;

verus! {

/// The character for a digit.
pub open spec fn digit(d: nat) -> char {
    (('0' as int) + d) as char
}

/// A natural number in decimal, without leading zeros.
pub open spec fn dec(n: nat) -> Seq<char>
    decreases n,
{
    if n < 10 {
        seq![digit(n)]
    } else {
        dec(n / 10).push(digit(n % 10))
    }
}

/// An integer in decimal.
pub open spec fn dec_int(n: int) -> Seq<char> {
    if n < 0 {
        seq!['-'] + dec((-n) as nat)
    } else {
        dec(n as nat)
    }
}

/// The number that a sequence of digits stands for.
pub open spec fn value(s: Seq<char>) -> nat
    decreases s.len(),
{
    if s.len() == 0 {
        0
    } else {
        value(s.drop_last()) * 10 + (s.last() as nat - '0' as nat) as nat
    }
}

pub open spec fn all_digits(s: Seq<char>) -> bool {
    forall|i: int| 0 <= i < s.len() ==> text::is_digit(#[trigger] s[i])
}

/// The number that a text of digits stands for, if it is not above `max`.
pub open spec fn parse_digits(s: Seq<char>, max: nat) -> Option<nat> {
    if s.len() > 0 && all_digits(s) && value(s) <= max {
        Some(value(s))
    } else {
        None
    }
}

/// The number that a text stands for: digits after an optional `+`.
pub open spec fn parse_unsigned(s: Seq<char>, max: nat) -> Option<nat> {
    if s.len() > 0 && s[0] == '+' {
        parse_digits(s.skip(1), max)
    } else {
        parse_digits(s, max)
    }
}

/// The signed 64-bit number that a text stands for: digits after an optional sign.
pub open spec fn parse_signed(s: Seq<char>) -> Option<int> {
    if s.len() > 0 && s[0] == '-' {
        match parse_digits(s.skip(1), 0x8000_0000_0000_0000) {
            Some(n) => Some(-n),
            None => None,
        }
    } else {
        match parse_unsigned(s, 0x7fff_ffff_ffff_ffff) {
            Some(n) => Some(n as int),
            None => None,
        }
    }
}

fn push_digit(s: &mut String, d: u64)
    requires
        d < 10,
    ensures
        final(s)@ == old(s)@.push(digit(d as nat)),
{
    let b: u8 = 48 + d as u8;
    s.push(b as char);
}

/// Appends a number in decimal.
pub fn push_u64(s: &mut String, n: u64)
    ensures
        final(s)@ == old(s)@ + dec(n as nat),
    decreases n,
{
    let ghost before = s@;
    if n >= 10 {
        push_u64(s, n / 10);
        push_digit(s, n % 10);
        assert(s@ =~= before + dec(n as nat));
    } else {
        push_digit(s, n);
        assert(s@ =~= before + dec(n as nat));
    }
}

/// A number in decimal.
pub fn u64_text(n: u64) -> (r: String)
    ensures
        r@ == dec(n as nat),
{
    let mut s = String::new();
    push_u64(&mut s, n);
    assert(s@ =~= dec(n as nat));
    s
}

/// A signed number in decimal.
pub fn i64_text(n: i64) -> (r: String)
    ensures
        r@ == dec_int(n as int),
{
    let mut s = String::new();
    if n < 0 {
        s.push('-');
        let m: u64 = if n == i64::MIN {
            0x8000_0000_0000_0000
        } else {
            (-n) as u64
        };
        push_u64(&mut s, m);
        assert(s@ =~= seq!['-'] + dec(m as nat));
    } else {
        push_u64(&mut s, n as u64);
        assert(s@ =~= dec(n as nat));
    }
    s
}

/// The value grows with every digit.
proof fn lemma_value_prefix(s: Seq<char>, i: int)
    requires
        0 <= i <= s.len(),
        all_digits(s),
    ensures
        value(s.take(i)) <= value(s),
    decreases s.len() - i,
{
    if i < s.len() {
        lemma_value_prefix(s, i + 1);
        let t = s.take(i + 1);
        assert(t.drop_last() =~= s.take(i));
        assert(text::is_digit(s[i]));
    } else {
        assert(s.take(i) =~= s);
    }
}

fn digits_from(v: &Vec<char>, from: usize, max: u64) -> (r: Option<u64>)
    requires
        from <= v@.len(),
    ensures
        match r {
            Some(n) => parse_digits(v@.skip(from as int), max as nat) == Some(n as nat),
            None => parse_digits(v@.skip(from as int), max as nat) is None,
        },
{
    let ghost s = v@.skip(from as int);
    if from == v.len() {
        return None;
    }
    let mut i: usize = from;
    let mut acc: u64 = 0;
    assert(s.take(0) =~= Seq::<char>::empty());
    while i < v.len()
        invariant
            from <= i <= v@.len(),
            s == v@.skip(from as int),
            acc <= max,
            acc == value(s.take(i - from)),
            forall|j: int| 0 <= j < i - from ==> text::is_digit(#[trigger] s[j]),
        decreases v.len() - i,
    {
        let c = v[i];
        if !char_is_digit(c) {
            assert(!text::is_digit(s[i - from]));
            return None;
        }
        let d: u64 = (c as u32 - '0' as u32) as u64;
        let next: u128 = (acc as u128) * 10 + d as u128;
        assert(s.take(i - from + 1).drop_last() =~= s.take(i - from));
        assert(next == value(s.take(i - from + 1)));
        if next > max as u128 {
            proof {
                if all_digits(s) {
                    lemma_value_prefix(s, i - from + 1);
                }
            }
            return None;
        }
        acc = next as u64;
        i += 1;
    }
    assert(s.take(i - from) =~= s);
    Some(acc)
}

/// Reads an unsigned number that is not above `max`.
pub fn parse_max(s: &str, max: u64) -> (r: Option<u64>)
    ensures
        match r {
            Some(n) => parse_unsigned(s@, max as nat) == Some(n as nat) && n <= max,
            None => parse_unsigned(s@, max as nat) is None,
        },
{
    let v = chars_of(s);
    assert(v@.skip(0) =~= v@);
    if v.len() > 0 && v[0] == '+' {
        digits_from(&v, 1, max)
    } else {
        digits_from(&v, 0, max)
    }
}

/// Reads a signed 64-bit number.
pub fn parse_i64(s: &str) -> (r: Option<i64>)
    ensures
        match r {
            Some(n) => parse_signed(s@) == Some(n as int),
            None => parse_signed(s@) is None,
        },
{
    let v = chars_of(s);
    assert(v@.skip(0) =~= v@);
    if v.len() > 0 && v[0] == '-' {
        match digits_from(&v, 1, 0x8000_0000_0000_0000) {
            Some(m) => if m == 0x8000_0000_0000_0000 {
                Some(i64::MIN)
            } else {
                Some(-(m as i64))
            },
            None => None,
        }
    } else {
        match parse_max(s, 0x7fff_ffff_ffff_ffff) {
            Some(m) => Some(m as i64),
            None => None,
        }
    }
}

proof fn lemma_dec_digits(n: nat)
    ensures
        dec(n).len() > 0,
        all_digits(dec(n)),
        value(dec(n)) == n,
    decreases n,
{
    if n < 10 {
        assert(dec(n).drop_last() =~= Seq::<char>::empty());
        assert(value(dec(n).drop_last()) == 0);
    } else {
        lemma_dec_digits(n / 10);
        assert(dec(n).drop_last() =~= dec(n / 10));
    }
}

/// A number written in decimal is read back as that number.
pub proof fn law_dec_reads_back(n: nat, max: nat)
    requires
        n <= max,
    ensures
        parse_unsigned(dec(n), max) == Some(n),
{
    lemma_dec_digits(n);
    assert(text::is_digit(dec(n)[0]));
}

/// A signed 64-bit number written in decimal is read back as that number.
pub proof fn law_dec_int_reads_back(n: i64)
    ensures
        parse_signed(dec_int(n as int)) == Some(n as int),
{
    if n < 0 {
        lemma_dec_digits((-n) as nat);
        assert(dec_int(n as int).skip(1) =~= dec((-n) as nat));
    } else {
        law_dec_reads_back(n as nat, 0x7fff_ffff_ffff_ffff);
        lemma_dec_digits(n as nat);
        assert(text::is_digit(dec(n as nat)[0]));
    }
}

/// Different numbers are written differently.
pub proof fn law_dec_injective(a: nat, b: nat)
    requires
        dec(a) == dec(b),
    ensures
        a == b,
{
    lemma_dec_digits(a);
    lemma_dec_digits(b);
}

/// **A number is read as what its digits say**: with one digit more, it is ten times as much and that
/// digit; a text with anything but digits is no number.
pub proof fn law_number_is_what_its_digits_say(
    a: &str,
    b: &str,
    d: char,
    max: u64,
    r: Option<u64>,
    s: Option<u64>,
)
    requires
        call_ensures(parse_max, (a, max), r),
        call_ensures(parse_max, (b, max), s),
        b@ == a@.push(d),
        '0' <= d <= '9',
    ensures
        a@.len() == 0 ==> r is None && (s matches Some(n) ==> n == d as int - '0' as int) && (d as int
            - '0' as int <= max ==> s is Some),
        r matches Some(n) ==> match s {
            Some(m) => m == n * 10 + (d as int - '0' as int),
            None => n * 10 + (d as int - '0' as int) > max,
        },
        s matches Some(n) ==> n <= max,
        (exists|i: int|
            0 < i < a@.len() && !('0' <= #[trigger] a@[i] <= '9')) ==> r is None && s is None,
{
    let x = a@;
    let y = b@;
    if x.len() == 0 {
        assert(y =~= seq![d]);
        assert(y.drop_last() =~= Seq::empty());
        reveal_with_fuel(value, 2);
    } else if x[0] == '+' {
        let p = x.skip(1);
        assert(y.skip(1) =~= p.push(d));
        lemma_push_digit(p, d);
    } else {
        lemma_push_digit(x, d);
    }
    if exists|i: int| 0 < i < x.len() && !('0' <= #[trigger] x[i] <= '9') {
        let i = choose|i: int| 0 < i < x.len() && !('0' <= #[trigger] x[i] <= '9');
        assert(!text::is_digit(x[i]));
        assert(y[i] == x[i]);
        if x[0] == '+' {
            assert(x.skip(1)[i - 1] == x[i]);
            assert(y.skip(1)[i - 1] == y[i]);
        }
    }
}

proof fn lemma_push_digit(s: Seq<char>, d: char)
    requires
        text::is_digit(d),
    ensures
        value(s.push(d)) == value(s) * 10 + (d as int - '0' as int),
        all_digits(s.push(d)) == all_digits(s),
{
    assert(s.push(d).drop_last() =~= s);
    if all_digits(s.push(d)) {
        assert forall|i: int| 0 <= i < s.len() implies text::is_digit(#[trigger] s[i]) by {
            assert(s.push(d)[i] == s[i]);
        }
    }
}

/// **A number that is written is read back**, with its sign.
pub proof fn law_written_number_is_read_back(
    n: u64,
    m: i64,
    a: String,
    b: String,
    x: &str,
    y: &str,
    r: Option<u64>,
    s: Option<i64>,
)
    requires
        call_ensures(u64_text, (n,), a),
        call_ensures(i64_text, (m,), b),
        x@ == a@,
        y@ == b@,
        call_ensures(parse_max, (x, u64::MAX), r),
        call_ensures(parse_i64, (y,), s),
    ensures
        r == Some(n),
        s == Some(m),
{
    law_dec_reads_back(n as nat, u64::MAX as nat);
    law_dec_int_reads_back(m);
}

} // verus!
