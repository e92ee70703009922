//! A small sequence toolkit: a ghost `filter_map` with the unrolling lemmas
//! that loop invariants over "emit zero or one result per element" passes
//! need, and verified copies of string vectors.

use vstd::prelude::*;

verus! {

/// The results of `f` over `s`, keeping order and dropping the `None`s.
pub open spec fn spec_filter_map<A, B>(s: Seq<A>, f: spec_fn(A) -> Option<B>) -> Seq<B>
    decreases s.len(),
{
    if s.len() == 0 {
        Seq::<B>::empty()
    } else {
        (match f(s[0]) {
            Some(b) => seq![b],
            None => Seq::<B>::empty(),
        }) + spec_filter_map(s.drop_first(), f)
    }
}

/// `filter_map` over a sequence extended by one element appends that
/// element's result.
pub proof fn lemma_filter_map_push<A, B>(s: Seq<A>, f: spec_fn(A) -> Option<B>, x: A)
    ensures
        spec_filter_map(s.push(x), f) == spec_filter_map(s, f) + (match f(x) {
            Some(b) => seq![b],
            None => Seq::<B>::empty(),
        }),
    decreases s.len(),
{
    let tail = match f(x) {
        Some(b) => seq![b],
        None => Seq::<B>::empty(),
    };
    if s.len() == 0 {
        assert(s.push(x) =~= seq![x]);
        assert(seq![x].drop_first() =~= Seq::<A>::empty());
        assert(spec_filter_map(Seq::<A>::empty(), f) == Seq::<B>::empty());
        assert(spec_filter_map(seq![x], f) == tail + Seq::<B>::empty());
        assert(tail + Seq::<B>::empty() =~= tail);
        assert(spec_filter_map(s, f) + tail =~= tail);
    } else {
        lemma_filter_map_push(s.drop_first(), f, x);
        assert(s.push(x).drop_first() =~= s.drop_first().push(x));
        let head = match f(s[0]) {
            Some(b) => seq![b],
            None => Seq::<B>::empty(),
        };
        assert(spec_filter_map(s.push(x), f) == head + (spec_filter_map(s.drop_first(), f)
            + tail));
        assert(head + (spec_filter_map(s.drop_first(), f) + tail) =~= (head + spec_filter_map(
            s.drop_first(),
            f,
        )) + tail);
    }
}

/// `filter_map` over the first `i + 1` elements extends `filter_map` over
/// the first `i` by the result of the element at `i`.
pub proof fn lemma_filter_map_take_succ<A, B>(s: Seq<A>, f: spec_fn(A) -> Option<B>, i: int)
    requires
        0 <= i < s.len(),
    ensures
        spec_filter_map(s.take(i + 1), f) == spec_filter_map(s.take(i), f) + (match f(s[i]) {
            Some(b) => seq![b],
            None => Seq::<B>::empty(),
        }),
{
    assert(s.take(i + 1) =~= s.take(i).push(s[i]));
    lemma_filter_map_push(s.take(i), f, s[i]);
}

/// A `filter_map` whose function never produces a result is empty.
pub proof fn lemma_filter_map_all_none<A, B>(s: Seq<A>, f: spec_fn(A) -> Option<B>)
    requires
        forall|i: int| 0 <= i < s.len() ==> (#[trigger] f(s[i])) is None,
    ensures
        spec_filter_map(s, f) == Seq::<B>::empty(),
    decreases s.len(),
{
    if s.len() == 0 {
        assert(spec_filter_map(s, f) =~= Seq::<B>::empty());
    } else {
        assert forall|i: int| 0 <= i < s.drop_first().len() implies (#[trigger] f(
            s.drop_first()[i],
        )) is None by {
            assert(s.drop_first()[i] == s[i + 1]);
        }
        lemma_filter_map_all_none(s.drop_first(), f);
        assert(f(s[0]) is None);
        assert(spec_filter_map(s, f) =~= Seq::<B>::empty());
    }
}

/// A `flat_map` whose function always produces nothing is empty.
pub proof fn lemma_flat_map_all_empty<A, B>(s: Seq<A>, f: spec_fn(A) -> Seq<B>)
    requires
        forall|i: int| 0 <= i < s.len() ==> (#[trigger] f(s[i])).len() == 0,
    ensures
        s.flat_map(f) == Seq::<B>::empty(),
    decreases s.len(),
{
    if s.len() == 0 {
        assert(s.map_values(f) =~= Seq::<Seq<B>>::empty());
        assert(Seq::<Seq<B>>::empty().flatten() == Seq::<B>::empty());
    } else {
        let butlast = s.drop_last();
        assert forall|i: int| 0 <= i < butlast.len() implies (#[trigger] f(
            butlast[i],
        )).len() == 0 by {
            assert(butlast[i] == s[i]);
        }
        lemma_flat_map_all_empty(butlast, f);
        butlast.lemma_flat_map_push(f, s.last());
        assert(butlast.push(s.last()) =~= s);
        assert(f(s.last()).len() == 0);
        assert(Seq::<B>::empty() + f(s.last()) =~= Seq::<B>::empty());
    }
}

/// A fresh vector holding the same strings.
pub fn clone_string_vec(v: &Vec<String>) -> (r: Vec<String>)
    ensures
        r.deep_view() == v.deep_view(),
{
    let mut out: Vec<String> = Vec::new();
    let mut i: usize = 0;
    while i < v.len()
        invariant
            i <= v@.len(),
            out@.len() == i,
            forall|j: int| 0 <= j < i ==> out@[j] == v@[j],
        decreases v@.len() - i,
    {
        out.push(v[i].clone());
        i = i + 1;
    }
    proof {
        assert(out.deep_view() =~= v.deep_view());
    }
    out
}

} // verus!
