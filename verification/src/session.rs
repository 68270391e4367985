//! Mutation sessions: the entry points for mutating a value.

use crate::context::{mutate_in, mutated, rested};
use crate::error::Error;
use crate::mutate::{DefaultMutate, Mutate};
use crate::rng::{seeded, Rng};
use vstd::prelude::*;

verus! {

/// A mutation session and its configuration: the seed of the random number
/// generator, and whether only shrinking mutations are made.
///
/// Reuse one session while a value, or a set of values, is mutated
/// repeatedly.
#[derive(Debug)]
pub struct Session {
    rng: Rng,
    shrink: bool,
}

impl Default for Session {
    fn default() -> (session: Self)
        ensures
            !session.is_shrinking(),
            session.generator().spec_inner() == seeded(0),
    {
        Session::new()
    }
}

impl Session {
    /// Whether the session makes only shrinking mutations.
    pub closed spec fn is_shrinking(&self) -> bool {
        self.shrink
    }

    /// The random number generator of the session, as it stands.
    pub closed spec fn generator(&self) -> Rng {
        self.rng
    }

    /// A new session with the default seed, which is zero, not shrinking.
    pub fn new() -> (session: Self)
        ensures
            !session.is_shrinking(),
            session.generator().spec_inner() == seeded(0),
    {
        Session { rng: Rng::default(), shrink: false }
    }

    /// Sets the seed of the random number generator: the session goes on
    /// with the stream that the seed selects.
    pub fn seed(self, seed: u64) -> (session: Self)
        ensures
            session.is_shrinking() == self.is_shrinking(),
            session.generator().spec_inner() == seeded(seed),
    {
        Session { rng: Rng::new(seed), shrink: self.shrink }
    }

    /// Sets whether only shrinking mutations are made. A new session makes
    /// all mutations.
    pub fn shrink(self, shrink: bool) -> (session: Self)
        ensures
            session.is_shrinking() == shrink,
            session.generator() == self.generator(),
    {
        Session { rng: self.rng, shrink }
    }

    /// Mutates `value` with the default mutator of its type, within this
    /// session's configuration.
    ///
    /// The mutator is made anew for the call, by `Default`, so it must be
    /// well formed, and have no more candidates than the registry can count,
    /// however it is made.
    pub fn mutate<T>(&mut self, value: &mut T) -> (r: Result<(), Error>) where T: DefaultMutate
        requires
            forall|mutator: T::DefaultMutate| #[trigger]
                call_ensures(T::DefaultMutate::default, (), mutator) ==> mutator.wf()
                    && mutator.max_candidates() <= u32::MAX,
        ensures
            final(self).is_shrinking() == old(self).is_shrinking(),
            r matches Err(e) ==> !e.is_signal(),
            exists|before: T::DefaultMutate, after: T::DefaultMutate|
                {
                    &&& call_ensures(T::DefaultMutate::default, (), before)
                    &&& #[trigger] mutated(
                        before,
                        old(self).is_shrinking(),
                        *old(value),
                        after,
                        *final(value),
                        r,
                    )
                    &&& rested(before, old(self).is_shrinking(), *old(value))
                        ==> final(self).generator() == old(self).generator()
                },
    {
        let mut mutator = crate::mutators::default::<T>();
        self.mutate_with(&mut mutator, value)
    }

    /// Mutates `value` with `mutator`, within this session's configuration.
    ///
    /// The value is left alone where the mutator rejects it or has no
    /// candidate mutation for it, and nothing is drawn from the generator
    /// then; otherwise exactly one of the mutator's candidates is applied
    /// to it.
    pub fn mutate_with<T, M: Mutate<T>>(&mut self, mutator: &mut M, value: &mut T) -> (r: Result<
        (),
        Error,
    >)
        requires
            old(mutator).wf(),
            old(mutator).max_candidates() <= u32::MAX,
        ensures
            final(self).is_shrinking() == old(self).is_shrinking(),
            rested(*old(mutator), old(self).is_shrinking(), *old(value)) ==> final(self).generator()
                == old(self).generator(),
            final(mutator).wf(),
            final(mutator).max_candidates() <= old(mutator).max_candidates(),
            r matches Err(e) ==> !e.is_signal(),
            mutated(
                *old(mutator),
                old(self).is_shrinking(),
                *old(value),
                *final(mutator),
                *final(value),
                r,
            ),
    {
        mutate_in(&mut self.rng, self.shrink, mutator, value)
    }
}

} // verus!
