//! Mutators of fixed-size arrays.

use crate::context::Candidates;
use crate::error::{Error, ErrorKind};
use crate::mutate::{DefaultMutate, Mutate};
use vstd::prelude::*;

verus! {

broadcast use crate::error::group_error_facts;

/// A mutator for fixed-size arrays.
///
/// The candidates of the array are those that `mutator` has for its first
/// element, then those for its second, and so on: one mutation edits one
/// element. Made by [`array`].
#[derive(Clone, Debug)]
pub struct Array<const N: usize, M> {
    pub mutator: M,
}

/// A mutator for arrays of `N` elements, built on a mutator of the elements.
pub fn array<const N: usize, M>(mutator: M) -> (m: Array<N, M>)
    ensures
        m.mutator == mutator,
{
    Array { mutator }
}

/// The number of candidates that `mutator` has for the first `upto` of
/// `values`.
pub open spec fn counted<M: Mutate<T>, T>(
    mutator: M,
    values: Seq<T>,
    shrink: bool,
    upto: nat,
) -> nat
    decreases upto,
{
    if upto == 0 {
        0
    } else {
        counted(mutator, values, shrink, (upto - 1) as nat) + mutator.candidates(
            values[upto - 1],
            shrink,
        )
    }
}

/// The error with which `mutator` turns down the first of the first `upto`
/// of `values` that it rejects.
pub open spec fn rejected<M: Mutate<T>, T>(
    mutator: M,
    values: Seq<T>,
    shrink: bool,
    upto: nat,
) -> Option<ErrorKind>
    decreases upto,
{
    if upto == 0 {
        None
    } else {
        match rejected(mutator, values, shrink, (upto - 1) as nat) {
            Some(kind) => Some(kind),
            None => mutator.rejects(values[upto - 1], shrink),
        }
    }
}

/// Whether the candidate numbered `index` among those for the first `upto`
/// of `values` can leave the mutator as `after` and the values as
/// `new_values`, with `result`: it edits the one element that it belongs to.
pub open spec fn edited<M: Mutate<T>, T>(
    mutator: M,
    values: Seq<T>,
    shrink: bool,
    upto: nat,
    index: nat,
    after: M,
    new_values: Seq<T>,
    result: Result<(), Error>,
) -> bool
    decreases upto,
{
    if upto == 0 {
        false
    } else {
        let before = counted(mutator, values, shrink, (upto - 1) as nat);
        if index < before {
            edited(mutator, values, shrink, (upto - 1) as nat, index, after, new_values, result)
        } else {
            &&& new_values == values.update(upto - 1, new_values[upto - 1])
            &&& mutator.applies(
                values[upto - 1],
                shrink,
                (index - before) as nat,
                after,
                new_values[upto - 1],
                result,
            )
        }
    }
}

/// More values have at least as many candidates.
pub proof fn lemma_counted_grows<M: Mutate<T>, T>(
    mutator: M,
    values: Seq<T>,
    shrink: bool,
    fewer: nat,
    more: nat,
)
    requires
        fewer <= more,
    ensures
        counted(mutator, values, shrink, fewer) <= counted(mutator, values, shrink, more),
    decreases more,
{
    if fewer < more {
        lemma_counted_grows(mutator, values, shrink, fewer, (more - 1) as nat);
    }
}

/// A rejection among some values is the rejection among more of them.
pub proof fn lemma_rejected_stays<M: Mutate<T>, T>(
    mutator: M,
    values: Seq<T>,
    shrink: bool,
    fewer: nat,
    more: nat,
)
    requires
        fewer <= more,
        rejected(mutator, values, shrink, fewer) is Some,
    ensures
        rejected(mutator, values, shrink, more) == rejected(mutator, values, shrink, fewer),
    decreases more,
{
    if fewer < more {
        lemma_rejected_stays(mutator, values, shrink, fewer, (more - 1) as nat);
    }
}

/// A candidate among those for some values is the same candidate among
/// those for more of them.
pub proof fn lemma_edited_stays<M: Mutate<T>, T>(
    mutator: M,
    values: Seq<T>,
    shrink: bool,
    fewer: nat,
    more: nat,
    index: nat,
    after: M,
    new_values: Seq<T>,
    result: Result<(), Error>,
)
    requires
        fewer <= more,
        index < counted(mutator, values, shrink, fewer),
        edited(mutator, values, shrink, fewer, index, after, new_values, result),
    ensures
        edited(mutator, values, shrink, more, index, after, new_values, result),
    decreases more,
{
    if fewer < more {
        lemma_edited_stays(
            mutator,
            values,
            shrink,
            fewer,
            (more - 1) as nat,
            index,
            after,
            new_values,
            result,
        );
        lemma_counted_grows(mutator, values, shrink, fewer, (more - 1) as nat);
    }
}

/// A candidate edits one element: whatever it makes of the values, all but
/// one of them, at a place below `upto`, are as they were.
pub proof fn lemma_edited_is_one<M: Mutate<T>, T>(
    mutator: M,
    values: Seq<T>,
    shrink: bool,
    upto: nat,
    index: nat,
    after: M,
    new_values: Seq<T>,
    result: Result<(), Error>,
) -> (at: int)
    requires
        edited(mutator, values, shrink, upto, index, after, new_values, result),
    ensures
        0 <= at < upto,
        new_values == values.update(at, new_values[at]),
        exists|local: nat| #[trigger]
            mutator.applies(values[at], shrink, local, after, new_values[at], result),
    decreases upto,
{
    let before = counted(mutator, values, shrink, (upto - 1) as nat);
    if index < before {
        lemma_edited_is_one(
            mutator,
            values,
            shrink,
            (upto - 1) as nat,
            index,
            after,
            new_values,
            result,
        )
    } else {
        assert(mutator.applies(
            values[upto - 1],
            shrink,
            (index - before) as nat,
            after,
            new_values[upto - 1],
            result,
        ));
        upto - 1
    }
}

impl<const N: usize, M, T> Mutate<[T; N]> for Array<N, M> where M: Mutate<T> {
    open spec fn wf(&self) -> bool {
        &&& self.mutator.wf()
        &&& N * self.mutator.max_candidates() <= u32::MAX
    }

    open spec fn rejects(&self, value: [T; N], shrink: bool) -> Option<ErrorKind> {
        rejected(self.mutator, value@, shrink, N as nat)
    }

    open spec fn candidates(&self, value: [T; N], shrink: bool) -> nat {
        counted(self.mutator, value@, shrink, N as nat)
    }

    open spec fn max_candidates(&self) -> nat {
        (N * self.mutator.max_candidates()) as nat
    }

    open spec fn applies(
        &self,
        value: [T; N],
        shrink: bool,
        index: nat,
        after: Self,
        new_value: [T; N],
        result: Result<(), Error>,
    ) -> bool {
        edited(self.mutator, value@, shrink, N as nat, index, after.mutator, new_value@, result)
    }

    fn mutate(&mut self, c: &mut Candidates<'_>, value: &mut [T; N]) -> (r: Result<(), Error>) {
        let ghost shrink = c@.shrink;
        let mut i: usize = 0;
        while i < N
            invariant
                i <= N,
                *self == *old(self),
                *value == *old(value),
                self.wf(),
                old(c)@.ready(),
                old(c)@.has_room(self.max_candidates()),
                shrink == old(c)@.shrink,
                c@ == old(c)@.advanced(counted(self.mutator, value@, shrink, i as nat)),
                *final(c.lent()) == *final(old(c).lent()),
                counted(self.mutator, value@, shrink, i as nat) <= i
                    * self.mutator.max_candidates(),
                rejected(self.mutator, value@, shrink, i as nat) is None,
                old(c)@.phase is Mutate ==> old(c)@.distance() >= counted(
                    self.mutator,
                    value@,
                    shrink,
                    i as nat,
                ),
            decreases N - i,
        {
            proof {
                lemma_counted_grows(self.mutator, value@, shrink, (i + 1) as nat, N as nat);
                assert((i + 1) * self.mutator.max_candidates() <= N * self.mutator.max_candidates())
                    by (nonlinear_arith)
                    requires
                        i + 1 <= N,
                ;
                assert(i * self.mutator.max_candidates() + self.mutator.max_candidates() == (i
                    + 1) * self.mutator.max_candidates()) by (nonlinear_arith);
            }
            let ghost values = value@;
            let ghost before = self.mutator;
            match self.mutator.mutate(c, &mut value[i]) {
                Ok(_) => {
                    assert(value@ =~= values);
                },
                Err(e) => {
                    proof {
                        let more = N as nat;
                        let next = (i + 1) as nat;
                        if before.rejects(values[i as int], shrink) is Some {
                            lemma_rejected_stays(before, values, shrink, next, more);
                            if old(c)@.phase is Count {
                                assert(*value == *old(value));
                            }
                        } else {
                            lemma_edited_stays(
                                before,
                                values,
                                shrink,
                                next,
                                more,
                                old(c)@.distance(),
                                self.mutator,
                                value@,
                                crate::mutate::edit_result(Err(e)),
                            );
                            lemma_counted_grows(before, values, shrink, next, more);
                        }
                        assert(N * self.mutator.max_candidates() <= N * before.max_candidates())
                            by (nonlinear_arith)
                            requires
                                self.mutator.max_candidates() <= before.max_candidates(),
                        ;
                    }
                    return Err(e);
                },
            }
            i += 1;
        }
        Ok(())
    }
}

impl<const N: usize, T> DefaultMutate for [T; N] where T: DefaultMutate {
    type DefaultMutate = Array<N, T::DefaultMutate>;
}

impl<const N: usize, M: Default> Default for Array<N, M> {
    fn default() -> (m: Self)
        ensures
            call_ensures(M::default, (), m.mutator),
    {
        Array { mutator: M::default() }
    }
}

} // verus!
