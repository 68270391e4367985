//! Mutation within a range, and the default mutator of a type.

use crate::context::{mutated, Candidates, Context};
use crate::error::{Error, ErrorKind};
use crate::mutate::{turned_down, DefaultMutate, Generate, Mutate, MutateInRange};
use std::ops::RangeInclusive;
use vstd::prelude::*;

verus! {

/// The result of an operation, without the value it produced.
pub open spec fn outcome<V>(result: Result<V, Error>) -> Result<(), Error> {
    match result {
        Ok(_) => Ok(()),
        Err(e) => Err(e),
    }
}

/// A mutator for `T` values within a given range.
///
/// Its candidates are those that `mutator` has for a mutation held to
/// `range`. Made by [`range`] and [`range_with`].
#[derive(Debug)]
pub struct Range<M, T> {
    pub mutator: M,
    pub range: RangeInclusive<T>,
}

/// A mutator for `T` values that keeps them within `bounds`, built on the
/// default mutator of `T`.
pub fn range<T>(bounds: RangeInclusive<T>) -> (ranged: Range<T::DefaultMutate, T>) where
    T: DefaultMutate,

    ensures
        ranged.range == bounds,
        call_ensures(<T as DefaultMutate>::DefaultMutate::default, (), ranged.mutator),
{
    let mutator = crate::mutators::default::<T>();
    Range { mutator, range: bounds }
}

/// Like [`range`], but built on the given `mutator`.
pub fn range_with<M, T>(bounds: RangeInclusive<T>, mutator: M) -> (ranged: Range<M, T>)
    ensures
        ranged.range == bounds,
        ranged.mutator == mutator,
{
    Range { mutator, range: bounds }
}

impl<M, T> Mutate<T> for Range<M, T> where M: MutateInRange<T> {
    open spec fn wf(&self) -> bool {
        &&& self.mutator.wf()
        &&& self.mutator.max_candidates() <= u32::MAX
    }

    open spec fn rejects(&self, value: T, shrink: bool) -> Option<ErrorKind> {
        self.mutator.rejects_in_range(value, self.range, shrink)
    }

    open spec fn candidates(&self, value: T, shrink: bool) -> nat {
        self.mutator.candidates_in_range(value, self.range, shrink)
    }

    open spec fn max_candidates(&self) -> nat {
        self.mutator.max_candidates()
    }

    open spec fn applies(
        &self,
        value: T,
        shrink: bool,
        index: nat,
        after: Self,
        new_value: T,
        result: Result<(), Error>,
    ) -> bool {
        &&& after.range == self.range
        &&& self.mutator.applies_in_range(
            value,
            self.range,
            shrink,
            index,
            after.mutator,
            new_value,
            result,
        )
    }

    /// A range that the mutator rejects is rejected at once, in either
    /// pass: nothing is registered, and the value is left alone.
    fn mutate(&mut self, c: &mut Candidates<'_>, value: &mut T) -> (r: Result<(), Error>)
        ensures
            turned_down(
                old(self).rejects(*old(value), old(c)@.shrink),
                old(c)@,
                final(c)@,
                *final(self) == *old(self) && *final(value) == *old(value),
                r,
            ),
    {
        self.mutator.mutate_in_range(c, value, &self.range)
    }
}

impl<M, T> Generate<T> for Range<M, T> where M: Generate<T> + MutateInRange<T> {
    /// A value is generated by `mutator` and then mutated once within the
    /// range; an error is that of either step.
    open spec fn generates(&self, shrink: bool, after: Self, result: Result<T, Error>) -> bool {
        ||| {
            &&& result matches Err(e)
            &&& after.range == self.range
            &&& self.mutator.generates(shrink, after.mutator, Err(e))
        }
        ||| exists|seeded: M, seed: T, last: T|
            {
                &&& #[trigger] self.mutator.generates(shrink, seeded, Ok(seed))
                &&& #[trigger] mutated(
                    Range { mutator: seeded, range: self.range },
                    shrink,
                    seed,
                    after,
                    last,
                    outcome(result),
                )
                &&& result matches Ok(value) ==> value == last
            }
    }

    fn generate(&mut self, context: &mut Context<'_>) -> (r: Result<T, Error>) {
        let mut value = self.mutator.generate(context)?;
        let ghost seeded = *self;
        let ghost seed = value;
        let held = context.mutate_with(self, &mut value);
        let ghost last = value;
        let r = match held {
            Ok(_) => Ok(value),
            Err(e) => Err(e),
        };
        proof {
            assert(held is Ok ==> held->Ok_0 == ());
            assert(old(self).mutator.generates(old(context).shrink(), seeded.mutator, Ok(seed)));
            assert(mutated(seeded, old(context).shrink(), seed, *self, last, outcome(r)));
        }
        r
    }
}

} // verus!
