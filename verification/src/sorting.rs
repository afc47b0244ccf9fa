//! Stable sorting by a rank that a type gives its values.

use vstd::prelude::*;

verus! {

/// A type whose values have a rank.
pub trait Ranked: Sized {
    /// Whether `self` must come before `other`.
    spec fn ranks_before(&self, other: &Self) -> bool;

    fn is_before(&self, other: &Self) -> (r: bool)
        ensures
            r == self.ranks_before(other),
    ;

    /// Of two values at most one comes before the other.
    proof fn rank_is_asymmetric(a: &Self, b: &Self)
        ensures
            !(a.ranks_before(b) && b.ranks_before(a)),
    ;

    /// Not to come before is transitive.
    proof fn rank_is_transitive(a: &Self, b: &Self, c: &Self)
        requires
            !b.ranks_before(a),
            !c.ranks_before(b),
        ensures
            !c.ranks_before(a),
    ;
}

/// `s` with `x` put behind every element that `x` does not come before, counted
/// from the end of `s`.
pub open spec fn insert_ranked<T: Ranked>(s: Seq<T>, x: T) -> Seq<T>
    decreases s.len(),
{
    if s.len() > 0 && x.ranks_before(&s.last()) {
        insert_ranked(s.drop_last(), x).push(s.last())
    } else {
        s.push(x)
    }
}

/// `s` sorted by rank; elements of equal rank keep their order.
pub open spec fn ranked<T: Ranked>(s: Seq<T>) -> Seq<T>
    decreases s.len(),
{
    if s.len() == 0 {
        s
    } else {
        insert_ranked(ranked(s.drop_last()), s.last())
    }
}

/// No element of `s` ranks before one in front of it.
pub open spec fn is_ranked<T: Ranked>(s: Seq<T>) -> bool {
    forall|i: int, j: int|
        #![trigger s[i], s[j]]
        0 <= i < j < s.len() ==> !s[j].ranks_before(&s[i])
}

proof fn lemma_insert_ranked_at<T: Ranked>(s: Seq<T>, x: T, k: int)
    requires
        0 <= k <= s.len(),
        forall|j: int| k <= j < s.len() ==> x.ranks_before(&#[trigger] s[j]),
        k > 0 ==> !x.ranks_before(&s[k - 1]),
    ensures
        insert_ranked(s, x) == s.insert(k, x),
    decreases s.len(),
{
    if k < s.len() {
        assert(s.drop_last().len() == s.len() - 1);
        lemma_insert_ranked_at(s.drop_last(), x, k);
        assert(s.drop_last().insert(k, x).push(s.last()) =~= s.insert(k, x));
    } else {
        assert(s.push(x) =~= s.insert(k, x));
    }
}

/// Sorts `items` by rank, keeping the order of items of equal rank.
pub fn sort_ranked<T: Ranked>(items: Vec<T>) -> (r: Vec<T>)
    ensures
        r@ == ranked(items@),
{
    let mut rest: Vec<T> = items;
    let mut reversed: Vec<T> = Vec::new();
    // Taking the items out from the back leaves them reversed; the second loop
    // then meets them in their first order.
    while rest.len() > 0
        invariant
            rest@.len() + reversed@.len() == items@.len(),
            rest@ =~= items@.subrange(0, rest@.len() as int),
            forall|i: int|
                0 <= i < reversed@.len() ==> #[trigger] reversed@[i] == items@[items@.len() - 1
                    - i],
        decreases rest@.len(),
    {
        match rest.pop() {
            Some(x) => {
                reversed.push(x);
            },
            None => {},
        }
    }
    let mut out: Vec<T> = Vec::new();
    proof {
        assert(items@.subrange(0, 0) =~= Seq::<T>::empty());
    }
    while reversed.len() > 0
        invariant
            out@.len() + reversed@.len() == items@.len(),
            out@ == ranked(items@.subrange(0, out@.len() as int)),
            forall|i: int|
                0 <= i < reversed@.len() ==> #[trigger] reversed@[i] == items@[items@.len() - 1
                    - i],
        decreases reversed@.len(),
    {
        let ghost done = out@.len() as int;
        match reversed.pop() {
            Some(x) => {
                let mut k: usize = out.len();
                let ghost before = out@;
                while k > 0 && x.is_before(&out[k - 1])
                    invariant
                        k <= out@.len(),
                        out@ == before,
                        forall|j: int| k <= j < out@.len() ==> x.ranks_before(&#[trigger] out@[j]),
                    decreases k,
                {
                    k -= 1;
                }
                proof {
                    lemma_insert_ranked_at(out@, x, k as int);
                    let longer = items@.subrange(0, done + 1);
                    assert(longer.drop_last() =~= items@.subrange(0, done));
                    assert(longer.last() == x);
                    lemma_insert_ranked_len(before, x);
                }
                out.insert(k, x);
            },
            None => {},
        }
    }
    proof {
        assert(items@.subrange(0, items@.len() as int) =~= items@);
    }
    out
}

proof fn lemma_insert_ranked_len<T: Ranked>(s: Seq<T>, x: T)
    ensures
        insert_ranked(s, x).len() == s.len() + 1,
    decreases s.len(),
{
    if s.len() > 0 && x.ranks_before(&s.last()) {
        lemma_insert_ranked_len(s.drop_last(), x);
    }
}

proof fn lemma_insert_ranked_keeps_rank<T: Ranked>(s: Seq<T>, x: T)
    requires
        is_ranked(s),
    ensures
        is_ranked(insert_ranked(s, x)),
        forall|y: T| !#[trigger] y.ranks_before(&x) && (forall|i: int|
            0 <= i < s.len() ==> !y.ranks_before(&#[trigger] s[i])) ==> (forall|i: int|
            0 <= i < insert_ranked(s, x).len() ==> !y.ranks_before(
                &#[trigger] insert_ranked(s, x)[i],
            )),
    decreases s.len(),
{
    lemma_insert_ranked_len(s, x);
    if s.len() > 0 && x.ranks_before(&s.last()) {
        let head = s.drop_last();
        let last = s.last();
        lemma_insert_ranked_len(head, x);
        assert(is_ranked(head)) by {
            assert forall|i: int, j: int|
                #![trigger head[i], head[j]]
                0 <= i < j < head.len() implies !head[j].ranks_before(&head[i]) by {
                assert(head[i] == s[i] && head[j] == s[j]);
            }
        }
        lemma_insert_ranked_keeps_rank(head, x);
        T::rank_is_asymmetric(&x, &last);
        assert(!last.ranks_before(&x));
        assert forall|i: int| 0 <= i < head.len() implies !last.ranks_before(
            &#[trigger] head[i],
        ) by {
            assert(head[i] == s[i]);
            assert(s[s.len() - 1] == last);
        }
        let grown = insert_ranked(head, x);
        let r = insert_ranked(s, x);
        assert(r == grown.push(last));
        assert forall|i: int, j: int|
            #![trigger r[i], r[j]]
            0 <= i < j < r.len() implies !r[j].ranks_before(&r[i]) by {
            if j < grown.len() {
                assert(r[i] == grown[i] && r[j] == grown[j]);
            } else {
                assert(r[i] == grown[i]);
                assert(!last.ranks_before(&grown[i]));
            }
        }
        assert forall|y: T|
            !#[trigger] y.ranks_before(&x) && (forall|i: int|
                0 <= i < s.len() ==> !y.ranks_before(&#[trigger] s[i])) implies (forall|i: int|
            0 <= i < r.len() ==> !y.ranks_before(&#[trigger] r[i])) by {
            assert forall|i: int| 0 <= i < head.len() implies !y.ranks_before(
                &#[trigger] head[i],
            ) by {
                assert(head[i] == s[i]);
            }
            assert forall|i: int| 0 <= i < r.len() implies !y.ranks_before(&#[trigger] r[i]) by {
                if i < grown.len() {
                    assert(r[i] == grown[i]);
                } else {
                    assert(r[i] == s[s.len() - 1]);
                }
            }
        }
    } else {
        let r = s.push(x);
        assert forall|i: int, j: int|
            #![trigger r[i], r[j]]
            0 <= i < j < r.len() implies !r[j].ranks_before(&r[i]) by {
            if j < s.len() {
                assert(r[i] == s[i] && r[j] == s[j]);
            } else {
                let last = s[s.len() - 1];
                assert(!x.ranks_before(&last));
                if i < s.len() - 1 {
                    assert(!s[s.len() - 1].ranks_before(&s[i]));
                    T::rank_is_transitive(&s[i], &last, &x);
                }
            }
        }
    }
}

/// A sorted sequence is in rank order and holds the same items.
pub proof fn ranked_is_sorted_permutation<T: Ranked>(s: Seq<T>)
    ensures
        is_ranked(ranked(s)),
        ranked(s).to_multiset() == s.to_multiset(),
        ranked(s).len() == s.len(),
    decreases s.len(),
{
    if s.len() > 0 {
        ranked_is_sorted_permutation(s.drop_last());
        let head = ranked(s.drop_last());
        lemma_insert_ranked_keeps_rank(head, s.last());
        lemma_insert_ranked_len(head, s.last());
        lemma_insert_ranked_multiset(head, s.last());
        s.drop_last().to_multiset_ensures();
        assert(s.drop_last().push(s.last()) =~= s);
    }
}

proof fn lemma_insert_ranked_multiset<T: Ranked>(s: Seq<T>, x: T)
    ensures
        insert_ranked(s, x).to_multiset() =~= s.to_multiset().insert(x),
    decreases s.len(),
{
    s.to_multiset_ensures();
    if s.len() > 0 && x.ranks_before(&s.last()) {
        lemma_insert_ranked_multiset(s.drop_last(), x);
        let head = s.drop_last();
        let grown = insert_ranked(head, x);
        head.to_multiset_ensures();
        grown.to_multiset_ensures();
        assert(head.push(s.last()) =~= s);
        assert(grown.to_multiset().insert(s.last()) =~= head.to_multiset().insert(x).insert(
            s.last(),
        ));
        assert(head.to_multiset().insert(s.last()).insert(x) =~= head.to_multiset().insert(x).insert(
            s.last(),
        ));
    }
}

/// What is in rank order stays as it is: elements of equal rank are not moved either.
pub proof fn sorted_items_stay<T: Ranked>(s: Seq<T>)
    requires
        is_ranked(s),
    ensures
        ranked(s) == s,
    decreases s.len(),
{
    if s.len() > 0 {
        let rest = s.drop_last();
        assert forall|i: int, j: int|
            #![trigger rest[i], rest[j]]
            0 <= i < j < rest.len() implies !rest[j].ranks_before(&rest[i]) by {
            assert(!s[j].ranks_before(&s[i]));
        }
        sorted_items_stay(rest);
        if rest.len() > 0 {
            assert(rest.last() == s[s.len() - 2]);
            assert(!s[s.len() - 1].ranks_before(&s[s.len() - 2]));
        }
        assert(insert_ranked(rest, s.last()) =~= s);
    }
}

/// An element that comes before none of the sorted ones is put behind all of them, and one
/// that comes before all of them in front.
pub proof fn item_is_put_in_its_place<T: Ranked>(s: Seq<T>, x: T)
    ensures
        (forall|i: int| 0 <= i < s.len() ==> !x.ranks_before(&#[trigger] s[i])) ==> insert_ranked(
            s,
            x,
        ) == s.push(x),
        (forall|i: int| 0 <= i < s.len() ==> x.ranks_before(&#[trigger] s[i])) ==> insert_ranked(
            s,
            x,
        ) == seq![x] + s,
    decreases s.len(),
{
    if s.len() > 0 {
        assert(s.last() == s[s.len() - 1]);
        if forall|i: int| 0 <= i < s.len() ==> x.ranks_before(&#[trigger] s[i]) {
            let rest = s.drop_last();
            assert forall|i: int| 0 <= i < rest.len() implies x.ranks_before(&#[trigger] rest[i]) by {
                assert(x.ranks_before(&s[i]));
            }
            item_is_put_in_its_place(rest, x);
            assert((seq![x] + rest).push(s.last()) =~= seq![x] + s);
        }
    } else {
        assert(s.push(x) =~= seq![x] + s);
    }
}

} // verus!
