//! Sequences that are gathered from other sequences, and lists that stand
//! for sets: every value once, in the order of its first occurrence.

use vstd::prelude::*;

verus! {

/// The sequence without repetitions: each value stays where it first occurs.
pub open spec fn distinct<T>(s: Seq<T>) -> Seq<T>
    decreases s.len(),
{
    if s.len() == 0 {
        s
    } else {
        let before = distinct(s.drop_last());
        if before.contains(s.last()) {
            before
        } else {
            before.push(s.last())
        }
    }
}

/// `distinct(s)` holds exactly the values of `s`, each of them once.
pub proof fn lemma_distinct<T>(s: Seq<T>)
    ensures
        distinct(s).no_duplicates(),
        forall|x: T| distinct(s).contains(x) <==> s.contains(x),
        distinct(s).len() <= s.len(),
    decreases s.len(),
{
    if s.len() > 0 {
        let rest = s.drop_last();
        let before = distinct(rest);
        lemma_distinct(rest);
        assert forall|x: T| distinct(s).contains(x) <==> s.contains(x) by {
            if s.contains(x) {
                let k = choose|k: int| 0 <= k < s.len() && s[k] == x;
                if k < rest.len() {
                    assert(rest[k] == x);
                    assert(rest.contains(x));
                    assert(before.contains(x));
                    let j = choose|j: int| 0 <= j < before.len() && before[j] == x;
                    assert(distinct(s)[j] == x);
                } else {
                    assert(x == s.last());
                    if !before.contains(x) {
                        assert(distinct(s)[before.len() as int] == x);
                    }
                }
            }
            if distinct(s).contains(x) {
                let j = choose|j: int| 0 <= j < distinct(s).len() && distinct(s)[j] == x;
                if j < before.len() {
                    assert(before[j] == x);
                    assert(rest.contains(x));
                    let k = choose|k: int| 0 <= k < rest.len() && rest[k] == x;
                    assert(s[k] == x);
                } else {
                    assert(s[s.len() - 1] == x);
                }
            }
        }
    }
}

/// Appending one value to a sequence appends it to the distinct sequence
/// unless that holds it already.
pub proof fn lemma_distinct_push<T>(s: Seq<T>, x: T)
    ensures
        distinct(s.push(x)) == if distinct(s).contains(x) {
            distinct(s)
        } else {
            distinct(s).push(x)
        },
{
    assert(s.push(x).drop_last() =~= s);
}

/// What `f` yields for the values of `s`, in their order; a value for which
/// `f` yields nothing is passed over.
pub open spec fn collect<A, B>(s: Seq<A>, f: spec_fn(A) -> Option<B>) -> Seq<B>
    decreases s.len(),
{
    if s.len() == 0 {
        Seq::empty()
    } else {
        let before = collect(s.drop_last(), f);
        match f(s.last()) {
            Some(b) => before.push(b),
            None => before,
        }
    }
}

/// The sequences that `f` yields for the values of `s`, joined in their order.
pub open spec fn collect_all<A, B>(s: Seq<A>, f: spec_fn(A) -> Seq<B>) -> Seq<B>
    decreases s.len(),
{
    if s.len() == 0 {
        Seq::empty()
    } else {
        collect_all(s.drop_last(), f) + f(s.last())
    }
}

/// One more value of `s` adds to `collect` what `f` yields for it.
pub proof fn lemma_collect_step<A, B>(s: Seq<A>, f: spec_fn(A) -> Option<B>, i: int)
    requires
        0 <= i < s.len(),
    ensures
        collect(s.take(i + 1), f) == match f(s[i]) {
            Some(b) => collect(s.take(i), f).push(b),
            None => collect(s.take(i), f),
        },
{
    assert(s.take(i + 1).drop_last() =~= s.take(i));
}

/// One more value of `s` adds to `collect_all` what `f` yields for it.
pub proof fn lemma_collect_all_step<A, B>(s: Seq<A>, f: spec_fn(A) -> Seq<B>, i: int)
    requires
        0 <= i < s.len(),
    ensures
        collect_all(s.take(i + 1), f) == collect_all(s.take(i), f) + f(s[i]),
{
    assert(s.take(i + 1).drop_last() =~= s.take(i));
}

/// Whatever `collect_all` holds comes from one of the values of `s`, and
/// whatever `f` yields for a value of `s` is held.
pub proof fn lemma_collect_all_contains<A, B>(s: Seq<A>, f: spec_fn(A) -> Seq<B>)
    ensures
        forall|b: B|
            collect_all(s, f).contains(b) <==> exists|i: int|
                0 <= i < s.len() && (#[trigger] f(s[i])).contains(b),
    decreases s.len(),
{
    if s.len() > 0 {
        let rest = s.drop_last();
        lemma_collect_all_contains(rest, f);
        let all = collect_all(s, f);
        let before = collect_all(rest, f);
        let last = f(s.last());
        assert forall|b: B|
            all.contains(b) <==> exists|i: int|
                0 <= i < s.len() && (#[trigger] f(s[i])).contains(b) by {
            if all.contains(b) {
                let k = choose|k: int| 0 <= k < all.len() && all[k] == b;
                if k < before.len() {
                    assert(before[k] == b);
                    assert(before.contains(b));
                    let i = choose|i: int| 0 <= i < rest.len() && (#[trigger] f(rest[i])).contains(b);
                    assert(rest[i] == s[i]);
                    assert(f(s[i]).contains(b));
                } else {
                    assert(last[k - before.len()] == b);
                    assert(f(s[s.len() - 1]).contains(b));
                }
            }
            if exists|i: int| 0 <= i < s.len() && (#[trigger] f(s[i])).contains(b) {
                let i = choose|i: int| 0 <= i < s.len() && (#[trigger] f(s[i])).contains(b);
                if i < rest.len() {
                    assert(rest[i] == s[i]);
                    assert(f(rest[i]).contains(b));
                    assert(before.contains(b));
                    let k = choose|k: int| 0 <= k < before.len() && before[k] == b;
                    assert(all[k] == b);
                } else {
                    let k = choose|k: int| 0 <= k < last.len() && last[k] == b;
                    assert(all[before.len() + k] == b);
                }
            }
        }
    } else {
        assert forall|b: B|
            collect_all(s, f).contains(b) <==> exists|i: int|
                0 <= i < s.len() && (#[trigger] f(s[i])).contains(b) by {
            if collect_all(s, f).contains(b) {
                let k = choose|k: int| 0 <= k < collect_all(s, f).len() && collect_all(s, f)[k] == b;
            }
        }
    }
}

} // verus!
