use vstd::prelude::*;

use crate::text::str_equals;

verus! {

broadcast use vstd::seq_lib::group_to_multiset_ensures;

/// A stored row with a text primary key.
pub trait Row: Sized {
    /// The primary key.
    spec fn key(&self) -> Seq<char>;

    fn key_str(&self) -> (r: &str)
        ensures
            r@ == self.key(),
    ;

    /// A copy equal to `self`.
    fn duplicate(&self) -> (r: Self)
        ensures
            r == *self,
    ;
}

/// No two entries of `s` agree on `f`.
pub open spec fn distinct_by<T>(s: Seq<T>, f: spec_fn(T) -> Seq<char>) -> bool {
    forall|i: int, j: int| 0 <= i < j < s.len() ==> f(#[trigger] s[i]) != f(#[trigger] s[j])
}

/// No two rows share a primary key.
pub open spec fn keys_distinct<T: Row>(s: Seq<T>) -> bool {
    distinct_by(s, |x: T| x.key())
}

/// Keeping some entries keeps them pairwise distinct.
pub proof fn lemma_filter_distinct<T>(s: Seq<T>, p: spec_fn(T) -> bool, f: spec_fn(T) -> Seq<char>)
    requires
        distinct_by(s, f),
    ensures
        distinct_by(s.filter(p), f),
    decreases s.len(),
{
    reveal(Seq::filter);
    if s.len() > 0 {
        let r = s.drop_last();
        assert(distinct_by(r, f)) by {
            assert forall|i: int, j: int| 0 <= i < j < r.len() implies f(#[trigger] r[i]) != f(
                #[trigger] r[j],
            ) by {
                assert(r[i] == s[i] && r[j] == s[j]);
            }
        }
        lemma_filter_distinct(r, p, f);
        let fr = r.filter(p);
        if p(s.last()) {
            let out = s.filter(p);
            assert(out == fr.push(s.last()));
            assert forall|i: int, j: int| 0 <= i < j < out.len() implies f(#[trigger] out[i]) != f(
                #[trigger] out[j],
            ) by {
                if j == fr.len() {
                    assert(fr.contains(fr[i]));
                    r.lemma_filter_contains_rev(p, fr[i]);
                    let k = choose|k: int| 0 <= k < r.len() && r[k] == fr[i];
                    assert(s[k] == r[k]);
                    assert(f(s[k]) != f(s[s.len() - 1]));
                } else {
                    assert(out[i] == fr[i] && out[j] == fr[j]);
                }
            }
        }
    }
}

/// Appending an entry whose `f` is new keeps the entries pairwise distinct.
pub proof fn lemma_push_distinct<T>(s: Seq<T>, x: T, f: spec_fn(T) -> Seq<char>)
    requires
        distinct_by(s, f),
        forall|i: int| 0 <= i < s.len() ==> f(#[trigger] s[i]) != f(x),
    ensures
        distinct_by(s.push(x), f),
{
    let t = s.push(x);
    assert forall|i: int, j: int| 0 <= i < j < t.len() implies f(#[trigger] t[i]) != f(
        #[trigger] t[j],
    ) by {
        assert(t[i] == s[i]);
        if j < s.len() {
            assert(t[j] == s[j]);
        }
    }
}

/// Replacing an entry by one that agrees with it on `f` keeps the entries
/// pairwise distinct.
pub proof fn lemma_update_distinct<T>(s: Seq<T>, i: int, x: T, f: spec_fn(T) -> Seq<char>)
    requires
        distinct_by(s, f),
        0 <= i < s.len(),
        f(x) == f(s[i]),
    ensures
        distinct_by(s.update(i, x), f),
{
    let t = s.update(i, x);
    assert forall|a: int, b: int| 0 <= a < b < t.len() implies f(#[trigger] t[a]) != f(
        #[trigger] t[b],
    ) by {
        assert(f(t[a]) == f(s[a]));
        assert(f(t[b]) == f(s[b]));
    }
}

/// Some row has primary key `k`.
pub open spec fn has_key<T: Row>(s: Seq<T>, k: Seq<char>) -> bool {
    exists|i: int| 0 <= i < s.len() && #[trigger] s[i].key() == k
}

/// The row with primary key `k`, if there is one.
pub open spec fn find_key<T: Row>(s: Seq<T>, k: Seq<char>) -> Option<T> {
    if has_key(s, k) {
        Some(s[choose|i: int| 0 <= i < s.len() && #[trigger] s[i].key() == k])
    } else {
        None
    }
}

/// The rows whose primary key is not `k`.
pub open spec fn without_key<T: Row>(s: Seq<T>, k: Seq<char>) -> Seq<T> {
    s.filter(|x: T| x.key() != k)
}

/// With distinct keys, the row found for `k` is the one at any index holding `k`.
pub proof fn lemma_find_at<T: Row>(s: Seq<T>, k: Seq<char>, i: int)
    requires
        keys_distinct(s),
        0 <= i < s.len(),
        s[i].key() == k,
    ensures
        find_key(s, k) == Some(s[i]),
{
    assert(has_key(s, k));
    let j = choose|j: int| 0 <= j < s.len() && #[trigger] s[j].key() == k;
    if j != i {
        if j < i {
            assert((|x: T| x.key())(s[j]) != (|x: T| x.key())(s[i]));
        } else {
            assert((|x: T| x.key())(s[i]) != (|x: T| x.key())(s[j]));
        }
    }
}

/// With distinct keys, the row at index `i` is the only one with its key.
pub proof fn lemma_key_unique<T: Row>(s: Seq<T>, k: Seq<char>, i: int)
    requires
        keys_distinct(s),
        0 <= i < s.len(),
        s[i].key() == k,
    ensures
        find_key(s, k) == Some(s[i]),
        forall|j: int| 0 <= j < s.len() && j != i ==> (#[trigger] s[j]).key() != k,
{
    lemma_find_at(s, k, i);
    assert forall|j: int| 0 <= j < s.len() && j != i implies (#[trigger] s[j]).key() != k by {
        if j < i {
            assert((|x: T| x.key())(s[j]) != (|x: T| x.key())(s[i]));
        } else {
            assert((|x: T| x.key())(s[i]) != (|x: T| x.key())(s[j]));
        }
    }
}

/// Index of the row with primary key `k`.
pub fn position_of<T: Row>(rows: &Vec<T>, k: &str) -> (r: Option<usize>)
    ensures
        match r {
            Some(i) => i < rows@.len() && rows@[i as int].key() == k@,
            None => !has_key(rows@, k@),
        },
{
    let n = rows.len();
    let mut i: usize = 0;
    while i < n
        invariant
            n == rows@.len(),
            i <= n,
            forall|j: int| 0 <= j < i ==> #[trigger] rows@[j].key() != k@,
        decreases n - i,
    {
        if str_equals(rows[i].key_str(), k) {
            return Some(i);
        }
        i = i + 1;
    }
    None
}

/// The rows for which `keep` holds, in their order, as copies.
pub fn filter_rows<T: Row, F: Fn(&T) -> bool>(
    rows: &Vec<T>,
    keep: F,
    Ghost(pred): Ghost<spec_fn(T) -> bool>,
) -> (r: Vec<T>)
    requires
        forall|x: &T| #[trigger] keep.requires((x,)),
        forall|x: &T, b: bool| keep.ensures((x,), b) ==> b == pred(*x),
    ensures
        r@ == rows@.filter(pred),
{
    let n = rows.len();
    let mut out: Vec<T> = Vec::new();
    let mut i: usize = 0;
    while i < n
        invariant
            n == rows@.len(),
            i <= n,
            out@ == rows@.take(i as int).filter(pred),
            forall|x: &T| #[trigger] keep.requires((x,)),
            forall|x: &T, b: bool| keep.ensures((x,), b) ==> b == pred(*x),
        decreases n - i,
    {
        proof {
            assert(rows@.take(i + 1) =~= rows@.take(i as int).push(rows@[i as int]));
            rows@.take(i as int).lemma_filter_push(rows@[i as int], pred);
        }
        if keep(&rows[i]) {
            out.push(rows[i].duplicate());
        }
        i = i + 1;
    }
    assert(rows@.take(n as int) =~= rows@);
    out
}

/// Number of rows for which `keep` holds.
pub fn count_rows<T: Row, F: Fn(&T) -> bool>(
    rows: &Vec<T>,
    keep: F,
    Ghost(pred): Ghost<spec_fn(T) -> bool>,
) -> (r: usize)
    requires
        forall|x: &T| #[trigger] keep.requires((x,)),
        forall|x: &T, b: bool| keep.ensures((x,), b) ==> b == pred(*x),
    ensures
        r == rows@.filter(pred).len(),
{
    let n = rows.len();
    let mut count: usize = 0;
    let mut i: usize = 0;
    while i < n
        invariant
            n == rows@.len(),
            i <= n,
            count == rows@.take(i as int).filter(pred).len(),
            forall|x: &T| #[trigger] keep.requires((x,)),
            forall|x: &T, b: bool| keep.ensures((x,), b) ==> b == pred(*x),
        decreases n - i,
    {
        proof {
            assert(rows@.take(i + 1) =~= rows@.take(i as int).push(rows@[i as int]));
            rows@.take(i as int).lemma_filter_push(rows@[i as int], pred);
            rows@.take(i as int).lemma_filter_len(pred);
        }
        if keep(&rows[i]) {
            count = count + 1;
        }
        i = i + 1;
    }
    assert(rows@.take(n as int) =~= rows@);
    count
}

/// A total preorder on rows, used to order query results.
pub trait RowOrder<T> {
    /// `a` may be listed before `b`.
    spec fn before(a: T, b: T) -> bool;

    proof fn lemma_total(a: T, b: T)
        ensures
            Self::before(a, b) || Self::before(b, a),
    ;

    proof fn lemma_transitive(a: T, b: T, c: T)
        requires
            Self::before(a, b),
            Self::before(b, c),
        ensures
            Self::before(a, c),
    ;

    fn check(a: &T, b: &T) -> (r: bool)
        ensures
            r == Self::before(*a, *b),
    ;
}

/// Every row may be listed before every later one.
pub open spec fn sorted_by<T, O: RowOrder<T>>(s: Seq<T>) -> bool {
    forall|i: int, j: int| 0 <= i < j < s.len() ==> O::before(#[trigger] s[i], #[trigger] s[j])
}

/// The same rows, reordered so that they are sorted by `O`.
pub fn sort_rows<T, O: RowOrder<T>>(rows: Vec<T>) -> (r: Vec<T>)
    ensures
        r@.to_multiset() == rows@.to_multiset(),
        sorted_by::<T, O>(r@),
{
    let ghost orig = rows@;
    let mut rest = rows;
    let mut out: Vec<T> = Vec::new();
    while rest.len() > 0
        invariant
            out@.to_multiset().add(rest@.to_multiset()) == orig.to_multiset(),
            sorted_by::<T, O>(out@),
            forall|i: int, j: int|
                0 <= i < out@.len() && 0 <= j < rest@.len() ==> O::before(
                    #[trigger] out@[i],
                    #[trigger] rest@[j],
                ),
        decreases rest@.len(),
    {
        let n = rest.len();
        let mut best: usize = 0;
        let mut j: usize = 1;
        proof {
            O::lemma_total(rest@[0], rest@[0]);
        }
        while j < n
            invariant
                n == rest@.len(),
                best < j <= n,
                forall|k: int| 0 <= k < j ==> O::before(rest@[best as int], #[trigger] rest@[k]),
            decreases n - j,
        {
            if !O::check(&rest[best], &rest[j]) {
                proof {
                    O::lemma_total(rest@[best as int], rest@[j as int]);
                    assert forall|k: int| 0 <= k < j + 1 implies O::before(
                        rest@[j as int],
                        #[trigger] rest@[k],
                    ) by {
                        if k < j {
                            O::lemma_transitive(rest@[j as int], rest@[best as int], rest@[k]);
                        } else {
                            O::lemma_total(rest@[j as int], rest@[j as int]);
                        }
                    }
                }
                best = j;
            }
            j = j + 1;
        }
        let ghost old_out = out@;
        let ghost old_rest = rest@;
        let x = rest.remove(best);
        out.push(x);
        proof {
            assert(old_rest.remove(best as int).to_multiset() == old_rest.to_multiset().remove(
                old_rest[best as int],
            ));
            assert(old_out.push(x).to_multiset() == old_out.to_multiset().insert(x));
            assert(old_rest.to_multiset().contains(x)) by {
                assert(old_rest.contains(x)) by {
                    assert(old_rest[best as int] == x);
                }
            }
            assert(out@.to_multiset().add(rest@.to_multiset()) =~= orig.to_multiset());
            assert forall|i: int, k: int| 0 <= i < k < out@.len() implies O::before(
                #[trigger] out@[i],
                #[trigger] out@[k],
            ) by {
                if k < old_out.len() {
                    assert(O::before(old_out[i], old_out[k]));
                } else {
                    assert(O::before(old_out[i], old_rest[best as int]));
                }
            }
            assert forall|i: int, k: int|
                0 <= i < out@.len() && 0 <= k < rest@.len() implies O::before(
                #[trigger] out@[i],
                #[trigger] rest@[k],
            ) by {
                let kk = if k < best { k } else { k + 1 };
                assert(rest@[k] == old_rest[kk]);
                if i < old_out.len() {
                    assert(O::before(old_out[i], old_rest[kk]));
                } else {
                    assert(O::before(old_rest[best as int], old_rest[kk]));
                }
            }
        }
    }
    assert(rest@.to_multiset() =~= vstd::multiset::Multiset::empty());
    assert(out@.to_multiset() =~= out@.to_multiset().add(rest@.to_multiset()));
    out
}

} // verus!
