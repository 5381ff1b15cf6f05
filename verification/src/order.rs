//! Texts in the order of their characters, and sorted lists of texts without repetition.

use crate::text;
use crate::text::{chars_of, same};
use vstd::prelude::*;

verus! {

/// `a` comes before `b`: at the first place where they differ it has the lesser character, or it
/// is a proper beginning of `b`.
pub open spec fn before(a: Seq<char>, b: Seq<char>) -> bool
    decreases a.len(),
{
    if b.len() == 0 {
        false
    } else if a.len() == 0 {
        true
    } else if a[0] != b[0] {
        a[0] < b[0]
    } else {
        before(a.skip(1), b.skip(1))
    }
}

/// The texts are in order and none occurs twice.
pub open spec fn sorted(s: Seq<Seq<char>>) -> bool {
    forall|i: int, j: int| 0 <= i < j < s.len() ==> before(#[trigger] s[i], #[trigger] s[j])
}

pub proof fn lemma_before_transitive(a: Seq<char>, b: Seq<char>, c: Seq<char>)
    requires
        before(a, b),
        before(b, c),
    ensures
        before(a, c),
    decreases a.len(),
{
    if a.len() > 0 && a[0] == b[0] && b[0] == c[0] {
        lemma_before_transitive(a.skip(1), b.skip(1), c.skip(1));
    }
}

/// Of two texts one comes before the other, unless they are equal.
pub proof fn lemma_before_total(a: Seq<char>, b: Seq<char>)
    ensures
        before(a, b) || before(b, a) || a == b,
        !(before(a, b) && before(b, a)),
        a == b ==> !before(a, b),
    decreases a.len(),
{
    if a.len() > 0 && b.len() > 0 && a[0] == b[0] {
        lemma_before_total(a.skip(1), b.skip(1));
        if a.skip(1) == b.skip(1) {
            assert(a =~= seq![a[0]] + a.skip(1));
            assert(b =~= seq![b[0]] + b.skip(1));
        }
    } else if a.len() == 0 && b.len() == 0 {
        assert(a =~= b);
    }
}

/// There is one sorted list of the texts of a set.
pub proof fn lemma_sorted_unique(s: Seq<Seq<char>>, t: Seq<Seq<char>>)
    requires
        sorted(s),
        sorted(t),
        s.to_set() == t.to_set(),
    ensures
        s == t,
    decreases s.len(),
{
    assert forall|x: Seq<char>| #[trigger] s.contains(x) == t.contains(x) by {
        assert(s.to_set().contains(x) == s.contains(x));
        assert(t.to_set().contains(x) == t.contains(x));
    }
    if s.len() == 0 {
        if t.len() > 0 {
            assert(t.contains(t[0]));
            assert(s.contains(t[0]));
        }
        assert(s =~= t);
    } else if t.len() == 0 {
        assert(s.contains(s[0]));
        assert(t.contains(s[0]));
    } else {
        assert(t.contains(s.last())) by {
            assert(s.contains(s.last()));
        }
        assert(s.contains(t.last())) by {
            assert(t.contains(t.last()));
        }
        let i = choose|i: int| 0 <= i < t.len() && t[i] == s.last();
        let j = choose|j: int| 0 <= j < s.len() && s[j] == t.last();
        if s.last() != t.last() {
            assert(i < t.len() - 1 && j < s.len() - 1);
            assert(before(t[i], t[t.len() - 1]));
            assert(before(s[j], s[s.len() - 1]));
            lemma_before_total(s.last(), t.last());
        }
        let a = s.drop_last();
        let b = t.drop_last();
        assert forall|x: Seq<char>| #[trigger] a.contains(x) == b.contains(x) by {
            if a.contains(x) {
                let k = choose|k: int| 0 <= k < a.len() && a[k] == x;
                assert(s[k] == x && before(s[k], s[s.len() - 1]));
                lemma_before_total(x, s.last());
                assert(s.contains(x));
                let m = choose|m: int| 0 <= m < t.len() && t[m] == x;
                assert(b[m] == x);
            }
            if b.contains(x) {
                let k = choose|k: int| 0 <= k < b.len() && b[k] == x;
                assert(t[k] == x && before(t[k], t[t.len() - 1]));
                lemma_before_total(x, t.last());
                assert(t.contains(x));
                assert(s.contains(x));
                let m = choose|m: int| 0 <= m < s.len() && s[m] == x;
                assert(a[m] == x);
            }
        }
        assert(a.to_set() =~= b.to_set());
        lemma_sorted_unique(a, b);
        assert(s =~= a.push(s.last()));
        assert(t =~= b.push(t.last()));
    }
}

/// Whether `a` comes before `b`.
pub fn comes_before(a: &str, b: &str) -> (r: bool)
    ensures
        r == before(a@, b@),
{
    let x = chars_of(a);
    let y = chars_of(b);
    let mut i: usize = 0;
    assert(x@.skip(0) =~= x@);
    assert(y@.skip(0) =~= y@);
    while i < x.len() && i < y.len() && x[i] == y[i]
        invariant
            i <= x@.len(),
            i <= y@.len(),
            before(x@, y@) == before(x@.skip(i as int), y@.skip(i as int)),
        decreases x.len() - i,
    {
        assert(x@.skip(i as int).skip(1) =~= x@.skip(i + 1));
        assert(y@.skip(i as int).skip(1) =~= y@.skip(i + 1));
        i += 1;
    }
    if i == y.len() {
        false
    } else if i == x.len() {
        true
    } else {
        x[i] < y[i]
    }
}

/// Puts a text into a sorted list, unless it is there.
pub fn insert_sorted(v: &mut Vec<String>, s: &str)
    requires
        sorted(text::texts(old(v)@)),
    ensures
        sorted(text::texts(final(v)@)),
        text::texts(final(v)@).to_set() == text::texts(old(v)@).to_set().insert(s@),
{
    let ghost t = text::texts(v@);
    let mut i: usize = 0;
    while i < v.len() && comes_before(&v[i], s)
        invariant
            i <= v@.len(),
            t == text::texts(v@),
            sorted(t),
            forall|k: int| 0 <= k < i ==> before(#[trigger] t[k], s@),
        decreases v.len() - i,
    {
        i += 1;
    }
    if i < v.len() && same(&v[i], s) {
        assert(t[i as int] == s@);
        assert(t.to_set().insert(s@) =~= t.to_set());
        return;
    }
    proof {
        assert forall|k: int| i <= k < t.len() implies before(s@, #[trigger] t[k]) by {
            lemma_before_total(t[i as int], s@);
            if k > i {
                lemma_before_transitive(s@, t[i as int], t[k]);
            }
        }
    }
    v.insert(i, s.to_owned());
    let ghost u = text::texts(v@);
    proof {
        assert(u =~= t.insert(i as int, s@));
        assert forall|j: int, k: int| 0 <= j < k < u.len() implies before(
            #[trigger] u[j],
            #[trigger] u[k],
        ) by {
            let jj = if j < i { j } else { j - 1 };
            let kk = if k < i { k } else { k - 1 };
            if j != i && k != i {
                assert(u[j] == t[jj] && u[k] == t[kk]);
            } else if j == i {
                assert(u[k] == t[k - 1]);
            } else {
                assert(u[j] == t[j]);
            }
        }
        assert forall|x: Seq<char>| u.to_set().contains(x) == t.to_set().insert(s@).contains(x) by {
            if u.contains(x) {
                let k = choose|k: int| 0 <= k < u.len() && u[k] == x;
                if k < i {
                    assert(t[k] == x);
                } else if k > i {
                    assert(t[k - 1] == x);
                }
            }
            if t.contains(x) {
                let k = choose|k: int| 0 <= k < t.len() && t[k] == x;
                if k < i {
                    assert(u[k] == x);
                } else {
                    assert(u[k + 1] == x);
                }
            }
            assert(u[i as int] == s@);
        }
        assert(u.to_set() =~= t.to_set().insert(s@));
    }
}

/// **Texts are in the order of their first characters that differ**; the beginning of a text comes
/// before it.
pub proof fn law_order_is_that_of_the_characters(
    a: &str,
    b: &str,
    p: Seq<char>,
    x: char,
    y: char,
    u: Seq<char>,
    w: Seq<char>,
    r: bool,
)
    requires
        call_ensures(comes_before, (a, b), r),
    ensures
        a@ == p + seq![x] + u && b@ == p + seq![y] + w && x != y ==> r == (x < y),
        b@ == a@ + seq![y] + w ==> r,
        a@ == b@ + u ==> !r,
{
    if a@ == p + seq![x] + u && b@ == p + seq![y] + w && x != y {
        lemma_common(p, seq![x] + u, seq![y] + w);
        assert(a@ =~= p + (seq![x] + u));
        assert(b@ =~= p + (seq![y] + w));
    }
    if b@ == a@ + seq![y] + w {
        lemma_common(a@, Seq::empty(), seq![y] + w);
        assert(a@ =~= a@ + Seq::<char>::empty());
        assert(b@ =~= a@ + (seq![y] + w));
    }
    if a@ == b@ + u {
        lemma_common(b@, u, Seq::empty());
        assert(b@ =~= b@ + Seq::<char>::empty());
    }
}

proof fn lemma_common(p: Seq<char>, a: Seq<char>, b: Seq<char>)
    ensures
        before(p + a, p + b) == before(a, b),
    decreases p.len(),
{
    if p.len() == 0 {
        assert(p + a =~= a);
        assert(p + b =~= b);
    } else {
        lemma_common(p.skip(1), a, b);
        assert((p + a).skip(1) =~= p.skip(1) + a);
        assert((p + b).skip(1) =~= p.skip(1) + b);
        assert((p + a)[0] == p[0] && (p + b)[0] == p[0]);
    }
}

/// **A list that a text was put into holds it and what it held**, each once and in order.
pub proof fn law_inserted_text_is_listed_once(v: &mut Vec<String>, s: &str, i: int, j: int)
    requires
        sorted(text::texts(old(v)@)),
        call_ensures(insert_sorted, (v, s), ()),
    ensures
        exists|k: int| 0 <= k < final(v)@.len() && (#[trigger] final(v)@[k])@ == s@,
        0 <= i < old(v)@.len() ==> exists|k: int|
            0 <= k < final(v)@.len() && (#[trigger] final(v)@[k])@ == old(v)@[i]@,
        0 <= i < final(v)@.len() ==> final(v)@[i]@ == s@ || exists|k: int|
            0 <= k < old(v)@.len() && (#[trigger] old(v)@[k])@ == final(v)@[i]@,
        0 <= i < j < final(v)@.len() ==> before(final(v)@[i]@, final(v)@[j]@) && final(v)@[i]@
            != final(v)@[j]@,
{
    let t = text::texts(old(v)@);
    let u = text::texts(final(v)@);
    assert(t.len() == old(v)@.len() && u.len() == final(v)@.len());
    assert(u.to_set().contains(s@));
    let k = u.index_of(s@);
    assert(u[k] == final(v)@[k]@);
    if 0 <= i < old(v)@.len() {
        assert(t[i] == old(v)@[i]@);
        assert(t.to_set().contains(t[i]));
        assert(u.to_set().contains(t[i]));
        let m = u.index_of(t[i]);
        assert(u[m] == final(v)@[m]@);
    }
    if 0 <= i < final(v)@.len() {
        assert(u[i] == final(v)@[i]@);
        assert(u.to_set().contains(u[i]));
        if u[i] != s@ {
            assert(t.to_set().contains(u[i]));
            let m = t.index_of(u[i]);
            assert(t[m] == old(v)@[m]@);
        }
    }
    if 0 <= i < j < final(v)@.len() {
        assert(u[i] == final(v)@[i]@ && u[j] == final(v)@[j]@);
        assert(before(u[i], u[j]));
        lemma_before_total(u[i], u[j]);
    }
}

} // verus!
