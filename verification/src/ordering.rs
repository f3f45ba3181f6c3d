//! Orders on records and the stable sort that the lists of the application use.

use vstd::prelude::*;

verus! {

/// A total preorder on the values of a type, with an executable comparison.
/// Two values with `key_le` both ways have the same key.
pub trait SortKey: Sized {
    /// `self` may stand before `other`.
    spec fn key_le(self, other: Self) -> bool;

    proof fn lemma_key_total(a: Self, b: Self)
        ensures
            a.key_le(b) || b.key_le(a),
    ;

    proof fn lemma_key_transitive(a: Self, b: Self, c: Self)
        requires
            a.key_le(b),
            b.key_le(c),
        ensures
            a.key_le(c),
    ;

    /// Whether `self` must stand after `other`.
    fn key_gt(&self, other: &Self) -> (r: bool)
        ensures
            r == !self.key_le(*other),
    ;
}

/// Two values with the same key.
pub open spec fn same_key<T: SortKey>(a: T, b: T) -> bool {
    a.key_le(b) && b.key_le(a)
}

/// The values stand in the order of their keys.
pub open spec fn sorted_by_key<T: SortKey>(s: Seq<T>) -> bool {
    forall|i: int, j: int| 0 <= i < j < s.len() ==> (#[trigger] s[i]).key_le(#[trigger] s[j])
}

/// `r` holds the values of `s` rearranged: `r[k]` is `s[p[k]]`, each position
/// of `s` is taken once, and values with the same key keep their order.
pub open spec fn is_stable_arrangement<T: SortKey>(s: Seq<T>, r: Seq<T>, p: Seq<int>) -> bool {
    &&& r.len() == s.len()
    &&& p.len() == s.len()
    &&& forall|k: int| 0 <= k < r.len() ==> 0 <= #[trigger] p[k] < s.len() && r[k] == s[p[k]]
    &&& forall|k1: int, k2: int|
        0 <= k1 < k2 < r.len() ==> #[trigger] p[k1] != #[trigger] p[k2]
    &&& forall|k1: int, k2: int|
        0 <= k1 < k2 < r.len() && same_key(#[trigger] r[k1], #[trigger] r[k2]) ==> p[k1] < p[k2]
}

/// The state of the sort after `n` values of `s` were placed in `r`.
spec fn placed<T: SortKey>(s: Seq<T>, r: Seq<T>, p: Seq<int>, n: int) -> bool {
    &&& r.len() == n
    &&& p.len() == n
    &&& forall|k: int| 0 <= k < n ==> 0 <= #[trigger] p[k] < n && r[k] == s[p[k]]
    &&& forall|k1: int, k2: int| 0 <= k1 < k2 < n ==> #[trigger] p[k1] != #[trigger] p[k2]
    &&& forall|k1: int, k2: int|
        0 <= k1 < k2 < n && same_key(#[trigger] r[k1], #[trigger] r[k2]) ==> p[k1] < p[k2]
}

/// Sorts the values by their keys.  The sort is stable: values with the same
/// key keep the order they had.
pub fn stable_sort<T: SortKey>(v: Vec<T>) -> (r: Vec<T>)
    ensures
        sorted_by_key(r@),
        exists|p: Seq<int>| is_stable_arrangement(v@, r@, p),
{
    let ghost s = v@;
    let mut input = v;
    let mut out: Vec<T> = Vec::new();
    let ghost mut p: Seq<int> = Seq::empty();
    while input.len() > 0
        invariant
            out@.len() <= s.len(),
            input@ == s.subrange(out@.len() as int, s.len() as int),
            sorted_by_key(out@),
            placed(s, out@, p, out@.len() as int),
        decreases input.len(),
    {
        let ghost n = out@.len() as int;
        let ghost old_out = out@;
        let x = input.remove(0);
        assert(x == s[n]);
        let mut pos = out.len();
        while pos > 0 && out[pos - 1].key_gt(&x)
            invariant
                pos <= out@.len(),
                out@ == old_out,
                forall|k: int| pos <= k < out@.len() ==> !(#[trigger] out@[k]).key_le(x),
            decreases pos,
        {
            pos = pos - 1;
        }
        proof {
            assert forall|k: int| 0 <= k < pos implies (#[trigger] old_out[k]).key_le(x) by {
                if k < pos - 1 {
                    T::lemma_key_transitive(old_out[k], old_out[pos - 1], x);
                }
            }
            assert forall|k: int| pos <= k < old_out.len() implies x.key_le(#[trigger] old_out[k]) by {
                T::lemma_key_total(x, old_out[k]);
            }
        }
        out.insert(pos, x);
        proof {
            let q = p.insert(pos as int, n);
            let r = out@;
            assert(r == old_out.insert(pos as int, x));
            assert forall|i: int, j: int| 0 <= i < j < r.len() implies (#[trigger] r[i]).key_le(
                #[trigger] r[j],
            ) by {
                if j < pos {
                    assert(r[i] == old_out[i] && r[j] == old_out[j]);
                } else if j == pos {
                    assert(r[i] == old_out[i]);
                } else if i == pos {
                    assert(r[j] == old_out[j - 1]);
                } else if i < pos {
                    assert(r[i] == old_out[i] && r[j] == old_out[j - 1]);
                } else {
                    assert(r[i] == old_out[i - 1] && r[j] == old_out[j - 1]);
                }
            }
            assert forall|k: int| 0 <= k < n + 1 implies 0 <= #[trigger] q[k] < n + 1 && r[k]
                == s[q[k]] by {
                if k < pos {
                    assert(q[k] == p[k]);
                } else if k > pos {
                    assert(q[k] == p[k - 1]);
                }
            }
            assert forall|k1: int, k2: int| 0 <= k1 < k2 < n + 1 implies #[trigger] q[k1]
                != #[trigger] q[k2] by {
                if k1 != pos && k2 != pos {
                    let a = if k1 < pos { k1 } else { k1 - 1 };
                    let b = if k2 < pos { k2 } else { k2 - 1 };
                    assert(q[k1] == p[a] && q[k2] == p[b]);
                } else if k1 == pos {
                    assert(q[k2] == p[k2 - 1]);
                } else {
                    assert(q[k1] == p[k1]);
                }
            }
            assert forall|k1: int, k2: int|
                0 <= k1 < k2 < n + 1 && same_key(#[trigger] r[k1], #[trigger] r[k2]) implies q[k1]
                < q[k2] by {
                if k1 != pos && k2 != pos {
                    let a = if k1 < pos { k1 } else { k1 - 1 };
                    let b = if k2 < pos { k2 } else { k2 - 1 };
                    assert(q[k1] == p[a] && q[k2] == p[b]);
                    assert(r[k1] == old_out[a] && r[k2] == old_out[b]);
                } else if k1 == pos {
                    assert(r[k2] == old_out[k2 - 1]);
                } else {
                    assert(q[k1] == p[k1]);
                }
            }
            p = q;
            assert(input@ =~= s.subrange(out@.len() as int, s.len() as int));
        }
    }
    proof {
        assert(out@.len() == s.len());
        assert(is_stable_arrangement(s, out@, p));
    }
    out
}

/// The order of `String` and `str`: lexicographic by characters, which is the
/// order of their UTF-8 bytes.  `a` is no later than `b`.
pub open spec fn text_le(a: Seq<char>, b: Seq<char>) -> bool
    decreases a.len(),
{
    if a.len() == 0 {
        true
    } else if b.len() == 0 {
        false
    } else if a[0] != b[0] {
        (a[0] as int) < (b[0] as int)
    } else {
        text_le(a.drop_first(), b.drop_first())
    }
}

/// The text order is total.
pub proof fn lemma_text_total(a: Seq<char>, b: Seq<char>)
    ensures
        text_le(a, b) || text_le(b, a),
    decreases a.len(),
{
    if a.len() > 0 && b.len() > 0 {
        if a[0] == b[0] {
            lemma_text_total(a.drop_first(), b.drop_first());
        } else {
            assert((a[0] as int) != (b[0] as int));
        }
    }
}

/// The text order is transitive.
pub proof fn lemma_text_transitive(a: Seq<char>, b: Seq<char>, c: Seq<char>)
    requires
        text_le(a, b),
        text_le(b, c),
    ensures
        text_le(a, c),
    decreases a.len(),
{
    if a.len() > 0 && b.len() > 0 && c.len() > 0 && a[0] == b[0] && b[0] == c[0] {
        lemma_text_transitive(a.drop_first(), b.drop_first(), c.drop_first());
    }
}

/// Texts that are no later than each other are equal.
pub proof fn lemma_text_antisymmetric(a: Seq<char>, b: Seq<char>)
    requires
        text_le(a, b),
        text_le(b, a),
    ensures
        a == b,
    decreases a.len(),
{
    if a.len() > 0 && b.len() > 0 {
        lemma_text_antisymmetric(a.drop_first(), b.drop_first());
        assert(a =~= seq![a[0]] + a.drop_first());
        assert(b =~= seq![b[0]] + b.drop_first());
    }
}

/// Whether `a` comes after `b` in the text order.
pub fn text_gt(a: &str, b: &str) -> (r: bool)
    ensures
        r == !text_le(a@, b@),
{
    let n = a.unicode_len();
    let m = b.unicode_len();
    let mut i: usize = 0;
    assert(a@.skip(0) =~= a@ && b@.skip(0) =~= b@);
    while i < n && i < m && a.get_char(i) == b.get_char(i)
        invariant
            n == a@.len(),
            m == b@.len(),
            i <= n,
            i <= m,
            text_le(a@, b@) == text_le(a@.skip(i as int), b@.skip(i as int)),
        decreases n - i,
    {
        proof {
            let sa = a@.skip(i as int);
            let sb = b@.skip(i as int);
            assert(sa.drop_first() =~= a@.skip(i + 1));
            assert(sb.drop_first() =~= b@.skip(i + 1));
        }
        i = i + 1;
    }
    if i < n && i < m {
        let x = a.get_char(i);
        let y = b.get_char(i);
        proof {
            assert(a@.skip(i as int)[0] == x);
            assert(b@.skip(i as int)[0] == y);
        }
        (y as u32) < (x as u32)
    } else {
        n > i
    }
}

/// An optional text in the order of `Option<String>`: no text comes first.
pub open spec fn opt_text_le(a: Option<Seq<char>>, b: Option<Seq<char>>) -> bool {
    match (a, b) {
        (None, _) => true,
        (Some(_), None) => false,
        (Some(x), Some(y)) => text_le(x, y),
    }
}

/// The characters of an optional `String`.
pub open spec fn opt_text(s: Option<String>) -> Option<Seq<char>> {
    match s {
        Some(t) => Some(t@),
        None => None,
    }
}

/// Whether `a` comes after `b` in the order of `Option<String>`.
pub fn opt_text_gt(a: &Option<String>, b: &Option<String>) -> (r: bool)
    ensures
        r == !opt_text_le(opt_text(*a), opt_text(*b)),
{
    match (a, b) {
        (None, _) => false,
        (Some(_), None) => true,
        (Some(x), Some(y)) => text_gt(x.as_str(), y.as_str()),
    }
}

/// The order of optional texts is total.
pub proof fn lemma_opt_text_total(a: Option<Seq<char>>, b: Option<Seq<char>>)
    ensures
        opt_text_le(a, b) || opt_text_le(b, a),
{
    if a is Some && b is Some {
        lemma_text_total(a->0, b->0);
    }
}

/// The order of optional texts is transitive.
pub proof fn lemma_opt_text_transitive(a: Option<Seq<char>>, b: Option<Seq<char>>, c: Option<Seq<char>>)
    requires
        opt_text_le(a, b),
        opt_text_le(b, c),
    ensures
        opt_text_le(a, c),
{
    if a is Some && b is Some && c is Some {
        lemma_text_transitive(a->0, b->0, c->0);
    }
}

/// Optional texts that are no later than each other are equal.
pub proof fn lemma_opt_text_antisymmetric(a: Option<Seq<char>>, b: Option<Seq<char>>)
    requires
        opt_text_le(a, b),
        opt_text_le(b, a),
    ensures
        a == b,
{
    if a is Some && b is Some {
        lemma_text_antisymmetric(a->0, b->0);
    }
}

/// Positions that grow with the index stay at least at the index.
proof fn lemma_increasing_lower(p: Seq<int>, k: int)
    requires
        0 <= k < p.len(),
        forall|i: int| 0 <= i < p.len() ==> 0 <= #[trigger] p[i],
        forall|i: int, j: int| 0 <= i < j < p.len() ==> #[trigger] p[i] < #[trigger] p[j],
    ensures
        k <= p[k],
    decreases k,
{
    if k > 0 {
        lemma_increasing_lower(p, k - 1);
        assert(p[k - 1] < p[k]);
    }
}

/// Positions that grow with the index and stay below the length stay at most
/// at the index.
proof fn lemma_increasing_upper(p: Seq<int>, k: int)
    requires
        0 <= k < p.len(),
        forall|i: int| 0 <= i < p.len() ==> #[trigger] p[i] < p.len(),
        forall|i: int, j: int| 0 <= i < j < p.len() ==> #[trigger] p[i] < #[trigger] p[j],
    ensures
        p[k] <= k,
    decreases p.len() - k,
{
    if k + 1 < p.len() {
        lemma_increasing_upper(p, k + 1);
        assert(p[k] < p[k + 1]);
    }
}

/// Sorting a list that is already in order leaves it as it is: a stable
/// arrangement of a sorted list into a sorted list is the list itself.
pub proof fn law_sorted_list_unchanged<T: SortKey>(s: Seq<T>, r: Seq<T>, p: Seq<int>)
    requires
        sorted_by_key(s),
        sorted_by_key(r),
        is_stable_arrangement(s, r, p),
    ensures
        r == s,
{
    assert forall|i: int, j: int| 0 <= i < j < p.len() implies #[trigger] p[i] < #[trigger] p[j] by {
        if p[j] < p[i] {
            assert(r[i].key_le(r[j]));
            assert(s[p[j]].key_le(s[p[i]]));
            assert(same_key(r[i], r[j]));
        }
    }
    assert forall|k: int| 0 <= k < r.len() implies r[k] == s[k] by {
        lemma_increasing_lower(p, k);
        lemma_increasing_upper(p, k);
    }
    assert(r =~= s);
}

} // verus!
