//! The fixed-length sequence type and its structural transforms.

use vstd::prelude::*;

verus! {

/// The mathematical result of appending `last` to the back of `s`.
pub open spec fn append_model<T>(s: Seq<T>, last: T) -> Seq<T> {
    s.push(last)
}

/// The mathematical result of prepending `first` to the front of `s`.
pub open spec fn prepend_model<T>(s: Seq<T>, first: T) -> Seq<T> {
    seq![first] + s
}

/// The mathematical result of removing the last element of `s`: the remaining
/// prefix, and the element removed.
pub open spec fn pop_back_model<T>(s: Seq<T>) -> (Seq<T>, T)
    recommends
        s.len() >= 1,
{
    (s.drop_last(), s.last())
}

/// The mathematical result of removing the first element of `s`: the element
/// removed, and the remaining suffix.
pub open spec fn pop_front_model<T>(s: Seq<T>) -> (T, Seq<T>)
    recommends
        s.len() >= 1,
{
    (s.first(), s.drop_first())
}

/// The mathematical result of splitting `s` at pivot `k`: the elements at
/// positions `[0, k)` and the elements at positions `[k, s.len())`, each part
/// in its original order.
pub open spec fn split_model<T>(s: Seq<T>, k: int) -> (Seq<T>, Seq<T>)
    recommends
        0 <= k <= s.len(),
{
    (s.take(k), s.skip(k))
}

/// The mathematical result of concatenating `s` and `rest`, in argument order.
pub open spec fn concat_model<T>(s: Seq<T>, rest: Seq<T>) -> Seq<T> {
    s + rest
}

/// A contiguous, exclusively-owned sequence of exactly `N` elements of type
/// `T`. The length is a property of the type: every live value holds exactly
/// `N` initialized elements, and there is no partially-initialized observable
/// state.
pub struct FixedSequence<T, const N: usize> {
    elems: Vec<T>,
}

impl<T, const N: usize> View for FixedSequence<T, N> {
    type V = Seq<T>;

    closed spec fn view(&self) -> Seq<T> {
        self.elems@
    }
}

impl<T, const N: usize> FixedSequence<T, N> {
    /// Every live value holds exactly `N` elements.
    #[verifier::type_invariant]
    spec fn length_fixed(self) -> bool {
        self.elems.len() == N
    }

    /// Builds a sequence from a vector that already holds exactly `N`
    /// elements. This is the boundary where a runtime-length collection
    /// enters the fixed-length world.
    pub fn from_vec(elems: Vec<T>) -> (seq: Self)
        requires
            elems.len() == N,
        ensures
            seq@ == elems@,
    {
        FixedSequence { elems }
    }

    /// Releases the elements back into a runtime-length vector, in order.
    pub fn into_vec(self) -> (elems: Vec<T>)
        ensures
            self@.len() == N,
            elems@ == self@,
    {
        proof {
            use_type_invariant(&self);
        }
        let FixedSequence { elems } = self;
        elems
    }

    /// The number of elements, always exactly `N`.
    pub fn len(&self) -> (n: usize)
        ensures
            n == N,
            self@.len() == N,
    {
        proof {
            use_type_invariant(self);
        }
        self.elems.len()
    }

    /// Returns a new sequence with the given element appended to the end.
    /// The input is consumed; its elements keep their positions and `last`
    /// stands at position `N`.
    pub fn append<const M: usize>(self, last: T) -> (longer: FixedSequence<T, M>)
        requires
            M == N + 1,
        ensures
            self@.len() == N,
            longer@ == append_model(self@, last),
    {
        proof {
            use_type_invariant(&self);
        }
        let FixedSequence { elems } = self;
        let mut elems = elems;
        elems.push(last);
        FixedSequence { elems }
    }

    /// Returns a new sequence with the given element prepended to the front.
    /// The input is consumed; `first` stands at position 0 and every element
    /// of the input moves one position toward the back.
    pub fn prepend<const M: usize>(self, first: T) -> (longer: FixedSequence<T, M>)
        requires
            M == N + 1,
        ensures
            self@.len() == N,
            longer@ == prepend_model(self@, first),
    {
        proof {
            use_type_invariant(&self);
        }
        let FixedSequence { elems } = self;
        let mut elems = elems;
        elems.insert(0, first);
        proof {
            assert(elems@ =~= prepend_model(self@, first));
        }
        FixedSequence { elems }
    }

    /// Removes the last element: returns the sequence of the first `N - 1`
    /// elements, in order, together with the removed element. The input is
    /// consumed. Callable only for `N >= 1`.
    pub fn pop_back<const M: usize>(self) -> (shorter: (FixedSequence<T, M>, T))
        requires
            N >= 1,
            M == N - 1,
        ensures
            self@.len() == N,
            shorter.0@ == pop_back_model(self@).0,
            shorter.1 == pop_back_model(self@).1,
    {
        proof {
            use_type_invariant(&self);
        }
        let FixedSequence { elems } = self;
        let mut elems = elems;
        let last = elems.pop().unwrap();
        (FixedSequence { elems }, last)
    }

    /// Removes the first element: returns the removed element together with
    /// the sequence of the remaining `N - 1` elements, in order. The input is
    /// consumed. Callable only for `N >= 1`.
    pub fn pop_front<const M: usize>(self) -> (shorter: (T, FixedSequence<T, M>))
        requires
            N >= 1,
            M == N - 1,
        ensures
            self@.len() == N,
            shorter.0 == pop_front_model(self@).0,
            shorter.1@ == pop_front_model(self@).1,
    {
        proof {
            use_type_invariant(&self);
        }
        let FixedSequence { elems } = self;
        let mut elems = elems;
        let first = elems.remove(0);
        proof {
            assert(elems@ =~= pop_front_model(self@).1);
        }
        (first, FixedSequence { elems })
    }

    /// Splits the sequence at pivot `K`: the first output holds the elements
    /// at positions `[0, K)`, the second the elements at positions `[K, N)`,
    /// each part in its original order. The input is consumed. `K == 0` and
    /// `K == N` are valid and yield one empty output.
    pub fn split<const K: usize, const L: usize>(self) -> (parts: (
        FixedSequence<T, K>,
        FixedSequence<T, L>,
    ))
        requires
            K <= N,
            L == N - K,
        ensures
            self@.len() == N,
            parts.0@ == split_model(self@, K as int).0,
            parts.1@ == split_model(self@, K as int).1,
    {
        proof {
            use_type_invariant(&self);
        }
        let FixedSequence { elems } = self;
        let mut elems = elems;
        let second = elems.split_off(K);
        (FixedSequence { elems }, FixedSequence { elems: second })
    }

    /// Concatenates two sequences, in argument order: the output holds the
    /// elements of `self` at positions `[0, N)` and the elements of `rest` at
    /// positions `[N, N + M)`, each in its original order. Both inputs are
    /// consumed.
    pub fn concat<const M: usize, const S: usize>(self, rest: FixedSequence<T, M>) -> (joined:
        FixedSequence<T, S>)
        requires
            S == N + M,
        ensures
            self@.len() == N,
            rest@.len() == M,
            joined@ == concat_model(self@, rest@),
    {
        proof {
            use_type_invariant(&self);
            use_type_invariant(&rest);
        }
        let FixedSequence { elems } = self;
        let FixedSequence { elems: rest_elems } = rest;
        let mut elems = elems;
        let mut rest_elems = rest_elems;
        elems.append(&mut rest_elems);
        FixedSequence { elems }
    }
}

} // verus!
