//! The structural laws that the transforms obey, stated over the same
//! mathematical models that the transforms' contracts use.

use vstd::prelude::*;

use crate::sequence::append_model;
use crate::sequence::concat_model;
use crate::sequence::pop_back_model;
use crate::sequence::pop_front_model;
use crate::sequence::prepend_model;
use crate::sequence::split_model;

verus! {

/// Inverse law: removing the last element of `append(s, e)` recovers exactly
/// `s` and `e`, for every sequence `s` and element `e`.
pub proof fn lemma_pop_back_append_inverse<T>(s: Seq<T>, e: T)
    ensures
        pop_back_model(append_model(s, e)) == (s, e),
{
    assert(append_model(s, e).drop_last() =~= s);
}

/// Inverse law: removing the first element of `prepend(s, e)` recovers exactly
/// `e` and `s`, for every sequence `s` and element `e`.
pub proof fn lemma_pop_front_prepend_inverse<T>(s: Seq<T>, e: T)
    ensures
        pop_front_model(prepend_model(s, e)) == (e, s),
{
    assert(prepend_model(s, e).drop_first() =~= s);
}

/// Inverse law: concatenating the two parts of a split at any valid pivot
/// recovers exactly the original sequence.
pub proof fn lemma_concat_split_inverse<T>(s: Seq<T>, k: int)
    requires
        0 <= k <= s.len(),
    ensures
        concat_model(split_model(s, k).0, split_model(s, k).1) == s,
{
    assert(s.take(k) + s.skip(k) =~= s);
}

/// Inverse law: splitting a concatenation at the length of its first operand
/// recovers exactly the two operands.
pub proof fn lemma_split_concat_inverse<T>(s1: Seq<T>, s2: Seq<T>)
    ensures
        split_model(concat_model(s1, s2), s1.len() as int) == (s1, s2),
{
    assert((s1 + s2).take(s1.len() as int) =~= s1);
    assert((s1 + s2).skip(s1.len() as int) =~= s2);
}

/// Order preservation for the grow transforms: neither `append` nor `prepend`
/// moves any element of the input relative to another — every input element
/// reappears at its old position, or at its old position shifted by the one
/// inserted element.
pub proof fn lemma_grow_preserves_order<T>(s: Seq<T>, e: T)
    ensures
        forall|i: int| 0 <= i < s.len() ==> append_model(s, e)[i] == s[i],
        append_model(s, e)[s.len() as int] == e,
        prepend_model(s, e)[0] == e,
        forall|i: int| 0 <= i < s.len() ==> prepend_model(s, e)[i + 1] == s[i],
{
}

/// Order preservation for the shrink transforms: `pop_back` and `pop_front`
/// keep every remaining element in its original relative order — positions
/// shift by at most the one removed element.
pub proof fn lemma_shrink_preserves_order<T>(s: Seq<T>)
    requires
        s.len() >= 1,
    ensures
        forall|i: int| 0 <= i < s.len() - 1 ==> pop_back_model(s).0[i] == s[i],
        pop_back_model(s).1 == s[s.len() - 1],
        pop_front_model(s).0 == s[0],
        forall|i: int| 0 <= i < s.len() - 1 ==> pop_front_model(s).1[i] == s[i + 1],
{
}

/// Order preservation for `split`: each part keeps its elements at their
/// original relative positions — the first part maps position `i` to source
/// position `i`, the second maps position `i` to source position `k + i`.
pub proof fn lemma_split_preserves_order<T>(s: Seq<T>, k: int)
    requires
        0 <= k <= s.len(),
    ensures
        forall|i: int| 0 <= i < k ==> split_model(s, k).0[i] == s[i],
        forall|i: int| 0 <= i < s.len() - k ==> split_model(s, k).1[i] == s[k + i],
{
}

/// Order preservation for `concat`: both operands keep their elements in
/// order — the first operand's element `i` stands at position `i`, the second
/// operand's element `i` at position `s1.len() + i`.
pub proof fn lemma_concat_preserves_order<T>(s1: Seq<T>, s2: Seq<T>)
    ensures
        forall|i: int| 0 <= i < s1.len() ==> concat_model(s1, s2)[i] == s1[i],
        forall|i: int| 0 <= i < s2.len() ==> concat_model(s1, s2)[s1.len() + i] == s2[i],
{
}

/// Element conservation for the grow transforms: `append` and `prepend` each
/// increase the element count by exactly 1.
pub proof fn lemma_grow_count<T>(s: Seq<T>, e: T)
    ensures
        append_model(s, e).len() == s.len() + 1,
        prepend_model(s, e).len() == s.len() + 1,
{
}

/// Element conservation for the shrink transforms: `pop_back` and `pop_front`
/// each decrease the element count by exactly 1.
pub proof fn lemma_shrink_count<T>(s: Seq<T>)
    requires
        s.len() >= 1,
    ensures
        pop_back_model(s).0.len() == s.len() - 1,
        pop_front_model(s).1.len() == s.len() - 1,
{
}

/// Element conservation for `split`: the parts hold `k` and `len - k`
/// elements, so together they hold exactly the original count.
pub proof fn lemma_split_count<T>(s: Seq<T>, k: int)
    requires
        0 <= k <= s.len(),
    ensures
        split_model(s, k).0.len() == k,
        split_model(s, k).1.len() == s.len() - k,
        split_model(s, k).0.len() + split_model(s, k).1.len() == s.len(),
{
}

/// Element conservation for `concat`: the result holds exactly the sum of its
/// operands' counts.
pub proof fn lemma_concat_count<T>(s1: Seq<T>, s2: Seq<T>)
    ensures
        concat_model(s1, s2).len() == s1.len() + s2.len(),
{
}

/// Boundary law for `split`: pivot 0 yields an empty first part and the whole
/// sequence as second part; pivot `len` yields the whole sequence as first
/// part and an empty second part.
pub proof fn lemma_split_boundary<T>(s: Seq<T>)
    ensures
        split_model(s, 0).0 == Seq::<T>::empty(),
        split_model(s, 0).1 == s,
        split_model(s, s.len() as int).0 == s,
        split_model(s, s.len() as int).1 == Seq::<T>::empty(),
{
    assert(split_model(s, 0).0 =~= Seq::<T>::empty());
    assert(split_model(s, 0).1 =~= s);
    assert(split_model(s, s.len() as int).0 =~= s);
    assert(split_model(s, s.len() as int).1 =~= Seq::<T>::empty());
}

/// Boundary law for `concat`: concatenating with an empty sequence on either
/// side yields the other sequence unchanged.
pub proof fn lemma_concat_empty<T>(s: Seq<T>)
    ensures
        concat_model(Seq::<T>::empty(), s) == s,
        concat_model(s, Seq::<T>::empty()) == s,
{
    assert(concat_model(Seq::<T>::empty(), s) =~= s);
    assert(concat_model(s, Seq::<T>::empty()) =~= s);
}

} // verus!
