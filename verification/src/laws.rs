//! Laws relating the stack operations, stated over the sequence model that
//! the operations' contracts use.

use vstd::prelude::*;

verus! {

/// The sequence left after `n` releases in a row, each of which drops the
/// last element (the effect that `pop` and a successful `release` state).
pub open spec fn release_n<T>(s: Seq<T>, n: nat) -> Seq<T>
    decreases n,
{
    if n == 0 {
        s
    } else {
        release_n(s.drop_last(), (n - 1) as nat)
    }
}

/// Pushes followed by releases in reverse order form a perfect inverse pair:
/// pushing the elements of `items` one after another onto a store holding `s`
/// leaves the store at `s + items` (each push appends, by the contract of the
/// push operations), and retiring the handles in reverse order then drops one
/// last element per handle (the contract of `pop` and `release`), ending with
/// the store exactly as it began.
pub proof fn lemma_pushes_then_releases<T>(s: Seq<T>, items: Seq<T>)
    ensures
        release_n(s + items, items.len()) == s,
    decreases items.len(),
{
    if items.len() == 0 {
        assert(s + items =~= s);
    } else {
        Seq::drop_last_distributes_over_add(s, items);
        lemma_pushes_then_releases(s, items.drop_last());
    }
}

/// `top` immediately after a push of `x` yields `x`: the push leaves the
/// store at `s.push(x)`, and `top` returns the last element of the store.
pub proof fn lemma_top_after_push<T>(s: Seq<T>, x: T)
    ensures
        s.push(x).last() == x,
{
}

/// Mutating the top and then popping returns the mutated value, not the one
/// originally pushed: writing `x` into the top slot (the contract of
/// `top_mut`) and then taking the last element (the contract of `pop`) yields
/// `x`, and the elements below the top are untouched throughout.
pub proof fn lemma_pop_after_top_mut<T>(s: Seq<T>, x: T)
    requires
        s.len() > 0,
    ensures
        s.update(s.len() - 1, x).last() == x,
        s.update(s.len() - 1, x).drop_last() == s.drop_last(),
{
    assert(s.update(s.len() - 1, x).drop_last() =~= s.drop_last());
}

/// Nesting depth matches push count: after `i` of the pushes of `items` onto
/// a store holding `s`, the store holds `s.len() + i` elements, so the handle
/// created by the next push — whose depth is the store length just before it,
/// by the contract of the push operations — has depth `s.len() + i`; after
/// all of them the length is `s.len() + items.len()`.
pub proof fn lemma_nested_push_depths<T>(s: Seq<T>, items: Seq<T>, i: int)
    requires
        0 <= i <= items.len(),
    ensures
        (s + items.take(i)).len() == s.len() + i,
{
}

} // verus!
