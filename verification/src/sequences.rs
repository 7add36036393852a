//! Facts about sequences that are filtered, mapped and joined.

use vstd::prelude::*;

verus! {

/// The last element contributes the end of what a sequence is mapped to and joined into.
pub proof fn lemma_flat_map_unfold<A, B>(s: Seq<A>, f: spec_fn(A) -> Seq<B>)
    requires
        s.len() > 0,
    ensures
        s.flat_map(f) == s.drop_last().flat_map(f) + f(s.last()),
{
    assert(s =~= s.drop_last().push(s.last()));
    s.drop_last().lemma_flat_map_push(f, s.last());
}

/// What holds of everything each element is mapped to holds of the whole.
pub proof fn lemma_flat_map_all<A, B>(s: Seq<A>, f: spec_fn(A) -> Seq<B>, q: spec_fn(B) -> bool)
    requires
        forall|i: int, k: int|
            #![trigger f(s[i])[k]]
            0 <= i < s.len() && 0 <= k < f(s[i]).len() ==> q(f(s[i])[k]),
    ensures
        forall|k: int| 0 <= k < s.flat_map(f).len() ==> q(#[trigger] s.flat_map(f)[k]),
    decreases s.len(),
{
    if s.len() > 0 {
        let rest = s.drop_last();
        assert forall|i: int, k: int|
            #![trigger f(rest[i])[k]]
            0 <= i < rest.len() && 0 <= k < f(rest[i]).len() implies q(f(rest[i])[k]) by {
            assert(rest[i] == s[i]);
        }
        lemma_flat_map_all(rest, f, q);
        lemma_flat_map_unfold(s, f);
        let n = rest.flat_map(f).len();
        assert forall|k: int| 0 <= k < s.flat_map(f).len() implies q(
            #[trigger] s.flat_map(f)[k],
        ) by {
            if k < n {
                assert(s.flat_map(f)[k] == rest.flat_map(f)[k]);
            } else {
                assert(s.flat_map(f)[k] == f(s[s.len() - 1])[k - n]);
            }
        }
    } else {
        assert(s.flat_map(f) =~= Seq::empty());
    }
}

/// Filtering what is joined is joining what is filtered.
pub proof fn lemma_flat_map_filter<A, B>(
    s: Seq<A>,
    f: spec_fn(A) -> Seq<B>,
    g: spec_fn(A) -> Seq<B>,
    p: spec_fn(B) -> bool,
)
    requires
        forall|a: A| #[trigger] g(a) == f(a).filter(p),
    ensures
        s.flat_map(f).filter(p) == s.flat_map(g),
    decreases s.len(),
{
    reveal(Seq::filter);
    if s.len() > 0 {
        lemma_flat_map_filter(s.drop_last(), f, g, p);
        lemma_flat_map_unfold(s, f);
        lemma_flat_map_unfold(s, g);
        Seq::filter_distributes_over_add(s.drop_last().flat_map(f), f(s.last()), p);
    } else {
        assert(s.flat_map(f) =~= Seq::empty());
        assert(s.flat_map(g) =~= Seq::empty());
    }
}

/// Joining sequences of one element each is mapping.
pub proof fn lemma_flat_map_singletons<A, B>(s: Seq<A>, f: spec_fn(A) -> Seq<B>, h: spec_fn(A) -> B)
    requires
        forall|a: A| #[trigger] f(a) == seq![h(a)],
    ensures
        s.flat_map(f) == s.map_values(h),
    decreases s.len(),
{
    if s.len() > 0 {
        lemma_flat_map_singletons(s.drop_last(), f, h);
        lemma_flat_map_unfold(s, f);
        assert(s.map_values(h) =~= s.drop_last().map_values(h) + seq![h(s.last())]);
    } else {
        assert(s.flat_map(f) =~= s.map_values(h));
    }
}

/// What holds of everything that elements can be mapped to holds of what they are mapped to.
pub proof fn lemma_filter_map_all<A, B>(
    s: Seq<A>,
    f: spec_fn(A) -> Option<B>,
    q: spec_fn(B) -> bool,
)
    requires
        forall|a: A| (#[trigger] f(a)) matches Some(b) ==> q(b),
    ensures
        forall|k: int| 0 <= k < s.filter_map(f).len() ==> q(#[trigger] s.filter_map(f)[k]),
{
    assert forall|k: int| 0 <= k < s.filter_map(f).len() implies q(
        #[trigger] s.filter_map(f)[k],
    ) by {
        assert(s.filter_map(f).contains(s.filter_map(f)[k]));
        s.lemma_filter_map_contains(f, s.filter_map(f)[k]);
    }
}

/// Filtering what elements are mapped to is mapping fewer of them.
pub proof fn lemma_filter_map_filter<A, B>(
    s: Seq<A>,
    f: spec_fn(A) -> Option<B>,
    g: spec_fn(A) -> Option<B>,
    p: spec_fn(B) -> bool,
)
    requires
        forall|a: A|
            #[trigger] g(a) == match f(a) {
                Some(b) => if p(b) {
                    Some(b)
                } else {
                    None
                },
                None => None,
            },
    ensures
        s.filter_map(f).filter(p) == s.filter_map(g),
    decreases s.len(),
{
    reveal(Seq::filter);
    if s.len() > 0 {
        lemma_filter_map_filter(s.drop_last(), f, g, p);
        let part = s.drop_last().filter_map(f);
        match f(s.last()) {
            Some(b) => {
                assert(s.filter_map(f) =~= part.push(b));
                part.lemma_filter_push(b, p);
                if p(b) {
                    assert(s.filter_map(g) =~= s.drop_last().filter_map(g).push(b));
                }
            },
            None => {},
        }
    }
}

/// A filter that every element passes changes nothing.
pub proof fn lemma_filter_keeps_all<B>(s: Seq<B>, p: spec_fn(B) -> bool)
    requires
        forall|k: int| 0 <= k < s.len() ==> p(#[trigger] s[k]),
    ensures
        s.filter(p) == s,
    decreases s.len(),
{
    reveal(Seq::filter);
    if s.len() > 0 {
        let rest = s.drop_last();
        assert forall|k: int| 0 <= k < rest.len() implies p(#[trigger] rest[k]) by {
            assert(rest[k] == s[k]);
        }
        lemma_filter_keeps_all(rest, p);
        assert(p(s[s.len() - 1]));
        assert(s =~= rest.push(s.last()));
    }
}

/// A filter that no element passes leaves nothing.
pub proof fn lemma_filter_drops_all<B>(s: Seq<B>, p: spec_fn(B) -> bool)
    requires
        forall|k: int| 0 <= k < s.len() ==> !p(#[trigger] s[k]),
    ensures
        s.filter(p) == Seq::<B>::empty(),
    decreases s.len(),
{
    reveal(Seq::filter);
    if s.len() > 0 {
        let rest = s.drop_last();
        assert forall|k: int| 0 <= k < rest.len() implies !p(#[trigger] rest[k]) by {
            assert(rest[k] == s[k]);
        }
        lemma_filter_drops_all(rest, p);
        assert(!p(s[s.len() - 1]));
    } else {
        assert(s =~= Seq::empty());
    }
}

} // verus!
