//! The contract between a mutator and the engine that drives it.
//!
//! A mutator never edits a value on its own account. It enumerates the edits
//! it could make by registering each with the [`Candidates`] it is handed,
//! and the registry runs at most one of them. The engine calls
//! [`Mutate::mutate`] twice for one mutation, first to count the candidates
//! and then to apply the one whose number it drew, so the enumeration has to
//! be a function of the mutator, the value and the session's mode. The trait
//! states that function ([`Mutate::candidates`], [`Mutate::rejects`]) and
//! what each candidate may do ([`Mutate::applies`]); [`enumerated`] ties
//! `mutate` to them.

use crate::context::{Candidates, Context, Phase, Registry};
use crate::error::{Error, ErrorKind};
use crate::mutators::combinators::{MapMutator, Or, Proj};
use std::ops::RangeInclusive;
use vstd::prelude::*;

verus! {

/// The result that an edit had, read off what the enumeration returned for
/// it: the early-exit signal stands for an edit that succeeded.
pub open spec fn edit_result(r: Result<(), Error>) -> Result<(), Error> {
    match r {
        Err(e) if !e.is_signal() => Err(e),
        _ => Ok(()),
    }
}

/// What one call of [`Mutate::mutate`] does to the registry, for a mutator
/// that turns the value down with `rejects` or else has `n` candidates for
/// it. `unchanged` says that the call left the mutator and the value as they
/// were, `applied` that they are what the candidate under the target makes
/// of them.
///
/// - Where the mutator rejects the value, the counting pass returns that
///   error and nothing but the registry's counter may have moved; the
///   selection pass returns an error too. A mutator never rejects a value as
///   exhausting it: exhaustion is what the engine reports for a mutator
///   without candidates.
/// - Otherwise the counting pass adds the number of candidates to the
///   counter, and the selection pass does the same while its target lies
///   beyond them. In both cases the mutator and the value stay as they were.
/// - Where the target is one of this mutator's candidates, that candidate is
///   applied and the call returns an error: the early-exit signal when the
///   edit succeeded, the edit's own error when it failed.
pub open spec fn enumerated(
    rejects: Option<ErrorKind>,
    n: nat,
    c: Registry,
    c2: Registry,
    unchanged: bool,
    applied: bool,
    r: Result<(), Error>,
) -> bool {
    &&& c2.shrink == c.shrink
    &&& match (rejects, c.phase) {
        (Some(kind), Phase::Count(_)) => {
            &&& r == Err::<(), Error>(Error::of(kind))
            &&& !(kind is Exhausted)
            &&& unchanged
            &&& c2.rng == c.rng
            &&& c2.phase is Count
            &&& !c2.applied
        },
        (Some(_), Phase::Mutate { .. }) => r is Err,
        (None, Phase::Count(_)) => r is Ok && c2 == c.advanced(n) && unchanged,
        (None, Phase::Mutate { current, target }) => if target - current >= n {
            r is Ok && c2 == c.advanced(n) && unchanged
        } else {
            r is Err && c2.applied && applied
        },
    }
}

/// Whether a call that was to enumerate candidates turned the value down at
/// once, where the mutator rejects it: with that error, whichever pass is
/// under way, and with the registry, the mutator and the value as they
/// were, so that nothing was registered, applied or drawn.
pub open spec fn turned_down(
    rejects: Option<ErrorKind>,
    c: Registry,
    c2: Registry,
    unchanged: bool,
    r: Result<(), Error>,
) -> bool {
    rejects matches Some(kind) ==> r == Err::<(), Error>(Error::of(kind)) && c2 == c && unchanged
}

/// A mutator of `T` values.
///
/// # Implementing a mutator
///
/// [`mutate`](Mutate::mutate) registers every edit that the mutator could
/// make of the value, each with one call of [`Candidates::mutation`], and
/// hands on at once whatever error such a call, or the `mutate` of a mutator
/// it is built from, returns. It changes neither the value nor itself: that
/// is for the edit to do, which the registry calls if it is the one chosen.
/// Which edits are registered, and in which order, may depend on the
/// mutator, the value and [`Candidates::shrink`], and on nothing else. While
/// shrinking, no edit is registered that can grow the value.
///
/// The functions [`rejects`](Mutate::rejects),
/// [`candidates`](Mutate::candidates) and [`applies`](Mutate::applies) say
/// what `mutate` enumerates, and `mutate` is proved against them. As they
/// stand in the trait they describe a mutator without candidates.
///
/// An error that `mutate` returns of its own accord, before or between its
/// registrations, is a rejection of the value, as of a range whose start
/// lies above its end. Exhaustion is none: a mutator that has nothing to
/// register registers nothing.
pub trait Mutate<T>: Sized {
    /// The invariant of the mutator's own state.
    open spec fn wf(&self) -> bool {
        true
    }

    /// The error with which the mutator turns `value` down before it
    /// registers all its candidates, if there is one.
    open spec fn rejects(&self, value: T, shrink: bool) -> Option<ErrorKind> {
        None
    }

    /// The number of candidate mutations that the mutator has for `value`.
    open spec fn candidates(&self, value: T, shrink: bool) -> nat {
        0
    }

    /// A bound on the number of candidates that the mutator has for any
    /// value. The registry must have room for that many.
    open spec fn max_candidates(&self) -> nat {
        0
    }

    /// Whether the candidate numbered `index` can leave the mutator as
    /// `after` and the value as `new_value`, with `result`.
    open spec fn applies(
        &self,
        value: T,
        shrink: bool,
        index: nat,
        after: Self,
        new_value: T,
        result: Result<(), Error>,
    ) -> bool {
        false
    }

    /// Registers every mutation that the mutator could make of `value`.
    ///
    /// To mutate a value, call [`Session::mutate`](crate::Session::mutate) or
    /// [`Session::mutate_with`](crate::Session::mutate_with), which drive
    /// this method.
    fn mutate(&mut self, c: &mut Candidates<'_>, value: &mut T) -> (r: Result<(), Error>)
        requires
            old(self).wf(),
            old(c)@.ready(),
            old(c)@.has_room(old(self).max_candidates()),
        ensures
            final(self).wf(),
            final(self).max_candidates() <= old(self).max_candidates(),
            *final(final(c).lent()) == *final(old(c).lent()),
            r is Ok ==> old(self).candidates(*old(value), old(c)@.shrink) <= old(
                self,
            ).max_candidates(),
            enumerated(
                old(self).rejects(*old(value), old(c)@.shrink),
                old(self).candidates(*old(value), old(c)@.shrink),
                old(c)@,
                final(c)@,
                *final(self) == *old(self) && *final(value) == *old(value),
                old(self).applies(
                    *old(value),
                    old(c)@.shrink,
                    old(c)@.distance(),
                    *final(self),
                    *final(value),
                    edit_result(r),
                ),
                r,
            ),
    ;

    /// A mutator that performs either a mutation of this mutator or one of
    /// `other`.
    fn or<M>(self, other: M) -> (or: Or<Self, M>)
        ensures
            or.left == self,
            or.right == other,
    {
        Or { left: self, right: other }
    }

    /// A mutator that applies `f` to every value that this mutator produces:
    /// `f` is given the value as the edit left it, and what it returns takes
    /// the value's place.
    #[must_use]
    fn map<F>(self, f: F) -> (mapped: MapMutator<Self, F>) where
        F: Fn(&mut Context<'_>, &T) -> Result<T, Error>,

        ensures
            mapped.mutator == self,
            mapped.f == f,
    {
        MapMutator { mutator: self, f }
    }

    /// A mutator of `U` values that mutates the part of them that `get`
    /// reads, a `T`, with this mutator, and puts the new part in its place
    /// with `put`.
    #[must_use]
    fn proj<G, P, U>(self, get: G, put: P) -> (projected: Proj<Self, G, P>) where
        G: Fn(&U) -> T,
        P: Fn(&U, T) -> U,

        ensures
            projected.mutator == self,
            projected.get == get,
            projected.put == put,
    {
        Proj { mutator: self, get, put }
    }
}

/// What one call of [`Mutate::mutate`] promises, as a relation between the
/// mutator, the registry and the value before the call and after it.
pub open spec fn enumerates<T, M: Mutate<T>>(
    before: M,
    c: Registry,
    value: T,
    after: M,
    c2: Registry,
    new_value: T,
    r: Result<(), Error>,
) -> bool {
    &&& after.wf()
    &&& after.max_candidates() <= before.max_candidates()
    &&& r is Ok ==> before.candidates(value, c.shrink) <= before.max_candidates()
    &&& enumerated(
        before.rejects(value, c.shrink),
        before.candidates(value, c.shrink),
        c,
        c2,
        after == before && new_value == value,
        before.applies(value, c.shrink, c.distance(), after, new_value, edit_result(r)),
        r,
    )
}

/// A type that has a default mutator.
pub trait DefaultMutate: Sized {
    /// The default mutator for this type.
    type DefaultMutate: Mutate<Self> + Default;
}

/// A mutator that can also generate a value from scratch.
pub trait Generate<T>: Mutate<T> {
    /// Whether generating in a session of mode `shrink` can leave the mutator
    /// as `after` and return `result`.
    open spec fn generates(&self, shrink: bool, after: Self, result: Result<T, Error>) -> bool {
        false
    }

    /// Generates a random `T` value from scratch, drawing from the
    /// context's random number generator as needed.
    fn generate(&mut self, context: &mut Context<'_>) -> (r: Result<T, Error>)
        requires
            old(self).wf(),
        ensures
            final(self).wf(),
            final(self).max_candidates() <= old(self).max_candidates(),
            final(context).shrink() == old(context).shrink(),
            *final(final(context).lent()) == *final(old(context).lent()),
            r matches Err(e) ==> !e.is_signal(),
            old(self).generates(old(context).shrink(), *final(self), r),
    ;
}

/// A mutator that can keep the values it produces within a given range.
///
/// The three spec functions are those of [`Mutate`], for a mutation that is
/// held to `range`. A range that the mutator rejects, as one whose start
/// lies above its end, it rejects before it registers anything.
pub trait MutateInRange<T>: Mutate<T> {
    /// The error with which the mutator turns `value` or `range` down.
    open spec fn rejects_in_range(
        &self,
        value: T,
        range: RangeInclusive<T>,
        shrink: bool,
    ) -> Option<ErrorKind> {
        None
    }

    /// The number of candidate mutations that keep `value` within `range`.
    open spec fn candidates_in_range(
        &self,
        value: T,
        range: RangeInclusive<T>,
        shrink: bool,
    ) -> nat {
        0
    }

    /// Whether the candidate numbered `index` can leave the mutator as
    /// `after` and the value as `new_value`, with `result`.
    open spec fn applies_in_range(
        &self,
        value: T,
        range: RangeInclusive<T>,
        shrink: bool,
        index: nat,
        after: Self,
        new_value: T,
        result: Result<(), Error>,
    ) -> bool {
        false
    }

    /// Registers every mutation of `value` whose result lies within `range`.
    fn mutate_in_range(
        &mut self,
        c: &mut Candidates<'_>,
        value: &mut T,
        range: &RangeInclusive<T>,
    ) -> (r: Result<(), Error>)
        requires
            old(self).wf(),
            old(c)@.ready(),
            old(c)@.has_room(old(self).max_candidates()),
        ensures
            final(self).wf(),
            final(self).max_candidates() <= old(self).max_candidates(),
            *final(final(c).lent()) == *final(old(c).lent()),
            r is Ok ==> old(self).candidates_in_range(*old(value), *range, old(c)@.shrink) <= old(
                self,
            ).max_candidates(),
            turned_down(
                old(self).rejects_in_range(*old(value), *range, old(c)@.shrink),
                old(c)@,
                final(c)@,
                *final(self) == *old(self) && *final(value) == *old(value),
                r,
            ),
            enumerated(
                old(self).rejects_in_range(*old(value), *range, old(c)@.shrink),
                old(self).candidates_in_range(*old(value), *range, old(c)@.shrink),
                old(c)@,
                final(c)@,
                *final(self) == *old(self) && *final(value) == *old(value),
                old(self).applies_in_range(
                    *old(value),
                    *range,
                    old(c)@.shrink,
                    old(c)@.distance(),
                    *final(self),
                    *final(value),
                    edit_result(r),
                ),
                r,
            ),
    ;
}

/// The lower bound of an inclusive range, as `RangeInclusive::start`
/// documents it.
pub assume_specification<Idx>[ RangeInclusive::<Idx>::start ](
    bounds: &RangeInclusive<Idx>,
) -> (start: &Idx)
    ensures
        *start == bounds@.start,
;

/// The upper bound of an inclusive range, as `RangeInclusive::end`
/// documents it.
pub assume_specification<Idx>[ RangeInclusive::<Idx>::end ](
    bounds: &RangeInclusive<Idx>,
) -> (end: &Idx)
    ensures
        *end == bounds@.end,
;

} // verus!
