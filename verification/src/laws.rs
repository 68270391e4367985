//! What holds of every mutator, proved from the contract of
//! [`Mutate::mutate`] and of the engine.

use crate::context::{mutated, Phase, Registry};
use crate::error::{Error, ErrorKind};
use crate::mutate::{edit_result, enumerates, Mutate};
use vstd::prelude::*;

verus! {

broadcast use crate::error::group_error_facts;

/// Whether one successful mutation with `mutator`, in a session of mode
/// `shrink`, can make `new_value` of `value`.
pub open spec fn steps_to<T, M: Mutate<T>>(
    mutator: M,
    shrink: bool,
    value: T,
    new_value: T,
) -> bool {
    exists|after: M| #[trigger] mutated(mutator, shrink, value, after, new_value, Ok(()))
}

/// Counting is deterministic: two counting passes of one mutator over one
/// value, in sessions of one mode, return the same result and, where they
/// succeed, count the same number of candidates, whatever the generators of
/// the two sessions hold. Neither pass changes the mutator or the value.
pub proof fn lemma_counting_is_deterministic<T, M: Mutate<T>>(
    mutator: M,
    value: T,
    first: Registry,
    first_counted: Registry,
    first_mutator: M,
    first_value: T,
    first_result: Result<(), Error>,
    second: Registry,
    second_counted: Registry,
    second_mutator: M,
    second_value: T,
    second_result: Result<(), Error>,
)
    requires
        first.phase == Phase::Count(0),
        second.phase == Phase::Count(0),
        first.shrink == second.shrink,
        mutator.wf(),
        mutator.max_candidates() <= u32::MAX,
        enumerates(mutator, first, value, first_mutator, first_counted, first_value, first_result),
        enumerates(
            mutator,
            second,
            value,
            second_mutator,
            second_counted,
            second_value,
            second_result,
        ),
    ensures
        first_result is Ok <==> second_result is Ok,
        first_result is Err ==> first_result == second_result,
        first_result is Ok ==> first_counted.phase == second_counted.phase,
        first_result is Ok ==> first_counted.phase == Phase::Count(
            mutator.candidates(value, first.shrink) as u32,
        ),
        first_mutator == mutator && second_mutator == mutator,
        first_value == value && second_value == value,
        first_counted.rng == first.rng && second_counted.rng == second.rng,
{
}

/// The selection pass finds what the counting pass counted: with a target
/// below the count, the pass applies the candidate of that number and
/// returns an error for the engine to read, the early-exit signal or the
/// error of the edit; it never runs to its end.
pub proof fn lemma_selection_applies_target<T, M: Mutate<T>>(
    mutator: M,
    value: T,
    c: Registry,
    target: u32,
    after: M,
    c2: Registry,
    new_value: T,
    r: Result<(), Error>,
)
    requires
        c.phase == (Phase::Mutate { current: 0, target }),
        mutator.rejects(value, c.shrink) is None,
        target < mutator.candidates(value, c.shrink),
        enumerates(mutator, c, value, after, c2, new_value, r),
    ensures
        r is Err,
        c2.applied,
        mutator.applies(value, c.shrink, target as nat, after, new_value, edit_result(r)),
{
}

/// A mutator without a candidate for a value is exhausted: the mutation
/// returns [`ErrorKind::Exhausted`] and leaves the mutator and the value as
/// they were.
pub proof fn lemma_no_candidate_is_exhaustion<T, M: Mutate<T>>(
    mutator: M,
    shrink: bool,
    value: T,
    after: M,
    new_value: T,
    r: Result<(), Error>,
)
    requires
        mutator.rejects(value, shrink) is None,
        mutator.candidates(value, shrink) == 0,
        mutated(mutator, shrink, value, after, new_value, r),
    ensures
        r == Err::<(), Error>(Error::of(ErrorKind::Exhausted)),
        after == mutator,
        new_value == value,
{
}

/// Exhaustion is never made up: a mutation that returns
/// [`ErrorKind::Exhausted`], for a mutator none of whose edits can fail
/// with it, had no candidate and changed nothing.
pub proof fn lemma_exhaustion_is_no_candidate<T, M: Mutate<T>>(
    mutator: M,
    shrink: bool,
    value: T,
    after: M,
    new_value: T,
)
    requires
        forall|index: nat, after: M, new_value: T|
            !mutator.applies(
                value,
                shrink,
                index,
                after,
                new_value,
                Err(Error::of(ErrorKind::Exhausted)),
            ),
        mutated(mutator, shrink, value, after, new_value, Err(Error::of(ErrorKind::Exhausted))),
    ensures
        mutator.candidates(value, shrink) == 0,
        after == mutator,
        new_value == value,
{
}

} // verus!
