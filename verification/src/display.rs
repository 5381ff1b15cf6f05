//! How numbers and columns are written for people.

use crate::decimal;
use crate::decimal::push_u64;
use crate::text;
use crate::text::fit;
use vstd::prelude::*;

verus! {

// ---- amounts of data ----

/// A fraction in tenths, rounded to the nearest, and to the even one of two that are equally near.
pub open spec fn tenths(n: nat, unit: nat) -> nat {
    let q = n * 10 / unit;
    let r = n * 10 % unit;
    if 2 * r > unit || 2 * r == unit && q % 2 == 1 {
        q + 1
    } else {
        q
    }
}

/// An amount in a unit, with one decimal.
pub open spec fn in_unit(n: nat, unit: nat, name: Seq<char>) -> Seq<char> {
    let t = tenths(n, unit);
    decimal::dec(t / 10) + "."@ + decimal::dec(t % 10) + " "@ + name
}

/// An amount of bytes, in the largest unit of which there is at least one.
pub open spec fn bytes_text(n: nat) -> Seq<char> {
    if n >= 1073741824 {
        in_unit(n, 1073741824, "GB"@)
    } else if n >= 1048576 {
        in_unit(n, 1048576, "MB"@)
    } else if n >= 1024 {
        in_unit(n, 1024, "KB"@)
    } else {
        decimal::dec(n) + " B"@
    }
}

fn unit_text(n: u64, unit: u64, name: &str) -> (r: String)
    requires
        1024 <= unit,
    ensures
        r@ == in_unit(n as nat, unit as nat, name@),
{
    let n10: u128 = n as u128 * 10;
    let u: u128 = unit as u128;
    let q: u128 = n10 / u;
    let rest: u128 = n10 % u;
    proof {
        assert(n10 / u <= n10 / 1024) by (nonlinear_arith)
            requires
                u >= 1024,
        ;
    }
    let t: u128 = if 2 * rest > u || 2 * rest == u && q % 2 == 1 {
        q + 1
    } else {
        q
    };
    let whole: u64 = (t / 10) as u64;
    let tenth: u64 = (t % 10) as u64;
    let mut s = String::new();
    push_u64(&mut s, whole);
    s.append(".");
    push_u64(&mut s, tenth);
    s.append(" ");
    s.append(name);
    s
}

/// An amount of bytes, in the largest unit of which there is at least one.
pub fn format_bytes(n: u64) -> (r: String)
    ensures
        r@ == bytes_text(n as nat),
{
    if n >= 1073741824 {
        unit_text(n, 1073741824, "GB")
    } else if n >= 1048576 {
        unit_text(n, 1048576, "MB")
    } else if n >= 1024 {
        unit_text(n, 1024, "KB")
    } else {
        let mut s = String::new();
        push_u64(&mut s, n);
        s.append(" B");
        s
    }
}

// ---- columns ----

/// As many spaces.
pub open spec fn spaces(n: nat) -> Seq<char> {
    Seq::new(n, |i: int| ' ')
}

/// A text with spaces behind it up to a width in characters.
pub open spec fn padded(s: Seq<char>, width: nat) -> Seq<char> {
    if s.len() >= width {
        s
    } else {
        s + spaces((width - s.len()) as nat)
    }
}

/// A text with spaces behind it up to a width in characters.
pub fn pad(s: &str, width: usize) -> (r: String)
    ensures
        r@ == padded(s@, width as nat),
{
    let n: usize = text::chars_of(s).len();
    let mut r = s.to_owned();
    let mut i: usize = n;
    while i < width
        invariant
            n == s@.len(),
            n <= i,
            n < width ==> i <= width,
            n >= width ==> i == n,
            r@ =~= s@ + spaces((i - n) as nat),
        decreases width - i,
    {
        r.push(' ');
        i += 1;
    }
    assert(n >= width ==> r@ =~= s@);
    r
}

/// A line of that many dashes.
pub open spec fn dashes(n: nat) -> Seq<char> {
    Seq::new(n, |i: int| '-')
}

/// A line of that many dashes.
pub fn rule(n: usize) -> (r: String)
    ensures
        r@ == dashes(n as nat),
{
    let mut r = String::new();
    let mut i: usize = 0;
    while i < n
        invariant
            i <= n,
            r@ =~= dashes(i as nat),
        decreases n - i,
    {
        r.push('-');
        i += 1;
    }
    r
}

// ---- users ----

/// How an id begins: its first eight bytes.
pub open spec fn short(id: Seq<char>) -> Seq<char> {
    text::fitted(id, 8)
}

/// How an id begins: its first eight bytes.
pub fn short_id(id: &str) -> (r: String)
    ensures
        r@ == short(id@),
{
    fit(id, 8)
}

/// What a user is called: its name, or how its id begins where it has none.
pub open spec fn called(name: Seq<char>, id: Seq<char>) -> Seq<char> {
    if name.len() == 0 {
        short(id)
    } else {
        name
    }
}

/// What a user is called: its name, or how its id begins where it has none.
pub fn call(name: &str, id: &str) -> (r: String)
    ensures
        r@ == called(name@, id@),
{
    if text::chars_of(name).len() == 0 {
        short_id(id)
    } else {
        name.to_owned()
    }
}

// ---- laws ----

proof fn lemma_nearest(n: nat, unit: nat)
    requires
        unit > 0,
    ensures
        2 * (n * 10) <= 2 * (tenths(n, unit) * unit) + unit,
        2 * (tenths(n, unit) * unit) <= 2 * (n * 10) + unit,
{
    let q = n * 10 / unit;
    let r = n * 10 % unit;
    vstd::arithmetic::div_mod::lemma_fundamental_div_mod((n * 10) as int, unit as int);
    vstd::arithmetic::div_mod::lemma_mod_bound((n * 10) as int, unit as int);
    assert(unit * q == q * unit) by (nonlinear_arith);
    assert((q + 1) * unit == q * unit + unit) by (nonlinear_arith);
}

/// The amount is written in that unit with one decimal, and off by half a tenth of the unit at most.
pub open spec fn shown_in(r: Seq<char>, n: nat, unit: nat, name: Seq<char>) -> bool {
    exists|whole: nat, tenth: nat|
        {
            &&& tenth < 10
            &&& r == #[trigger] decimal::dec(whole) + "."@ + #[trigger] decimal::dec(tenth) + " "@
                + name
            &&& 2 * (n * 10) <= 2 * ((whole * 10 + tenth) * unit) + unit
            &&& 2 * ((whole * 10 + tenth) * unit) <= 2 * (n * 10) + unit
        }
}

/// **An amount of data is shown as it is.** Below 1024 bytes it is shown to the byte; from there in
/// KB, MB or GB of 1024, 1024^2 and 1024^3 bytes, whichever is the largest that it reaches, rounded
/// to a tenth.
pub proof fn law_amount_is_shown(n: u64, r: String)
    requires
        call_ensures(format_bytes, (n,), r),
    ensures
        n < 1024 ==> r@ == decimal::dec(n as nat) + " B"@,
        1024 <= n < 1024 * 1024 ==> shown_in(r@, n as nat, 1024, "KB"@),
        1024 * 1024 <= n < 1024 * 1024 * 1024 ==> shown_in(r@, n as nat, 1024 * 1024, "MB"@),
        1024 * 1024 * 1024 <= n ==> shown_in(r@, n as nat, 1024 * 1024 * 1024, "GB"@),
{
    let unit: nat = if n >= 1073741824 {
        1073741824
    } else if n >= 1048576 {
        1048576
    } else {
        1024
    };
    let t = tenths(n as nat, unit);
    lemma_nearest(n as nat, unit);
    let whole = t / 10;
    let tenth = t % 10;
    assert(whole * 10 + tenth == t);
    if n >= 1024 {
        let name = if n >= 1073741824 {
            "GB"@
        } else if n >= 1048576 {
            "MB"@
        } else {
            "KB"@
        };
        assert(r@ == decimal::dec(whole) + "."@ + decimal::dec(tenth) + " "@ + name);
        assert(shown_in(r@, n as nat, unit, name));
    }
}

/// **A user is called by its name**, and one without a name by how its id begins: as many of its
/// characters as fit into eight bytes.
pub proof fn law_user_is_called_by_name(name: &str, id: &str, r: String, b: String)
    requires
        call_ensures(call, (name, id), r),
        call_ensures(short_id, (id,), b),
    ensures
        name@.len() > 0 ==> r@ == name@,
        name@.len() == 0 ==> r@ == b@,
        b@.is_prefix_of(id@),
        text::bytes(b@) <= 8,
        b@.len() < id@.len() ==> text::bytes(id@.take(b@.len() + 1int)) > 8,
{
    text::law_fitted_fits(id@, 8);
}

/// **A column begins with its text** and is filled up with spaces to its width; a text that is wider
/// is not cut.
pub proof fn law_column_begins_with_its_text(s: &str, width: usize, r: String)
    requires
        call_ensures(pad, (s, width), r),
    ensures
        s@.is_prefix_of(r@),
        r@.len() == (if s@.len() >= width {
            s@.len()
        } else {
            width as nat
        }),
        forall|i: int| s@.len() <= i < r@.len() ==> #[trigger] r@[i] == ' ',
{
    assert(r@.subrange(0, s@.len() as int) =~= s@);
}

/// **A rule is as long as it is wide**, and of dashes only.
pub proof fn law_rule_is_of_dashes(n: usize, i: int, r: String)
    requires
        call_ensures(rule, (n,), r),
    ensures
        r@.len() == n,
        0 <= i < n ==> r@[i] == '-',
{
}

} // verus!
