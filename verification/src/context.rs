//! The context of a running mutation, the registry that a mutator registers
//! its candidate edits with, and the two passes that pick one of them.
//!
//! One mutation is two calls of [`Mutate::mutate`] on the same mutator and
//! value. The first only counts the registrations. A target is then drawn
//! uniformly below the count, and the second call runs the edit of the
//! registration with that number and leaves at once. No list of pending edits
//! is ever built.

use crate::error::{Error, ErrorKind};
use crate::mutate::Mutate;
use crate::rng::Rng;
use vstd::prelude::*;

verus! {

broadcast use crate::error::group_error_facts;

/// The context of the current mutation: the random number generator, and
/// whether only shrinking mutations are to be made.
///
/// Contexts are not made directly. A [`Session`](crate::Session) makes one
/// for each mutation and the registry hands it to the edit that was chosen.
#[derive(Debug)]
pub struct Context<'a> {
    rng: &'a mut Rng,
    shrink: bool,
}

impl<'a> Context<'a> {
    /// Whether the context is in shrink mode.
    pub closed spec fn spec_shrink(&self) -> bool {
        self.shrink
    }

    /// The random number generator of the context, as it stands.
    pub closed spec fn generator(&self) -> Rng {
        *self.rng
    }

    /// The reference to the session's generator that the context was lent.
    /// A function that is handed the context keeps it: what the generator
    /// is when the function is done is what the session goes on with.
    pub closed spec fn lent(&self) -> &'a mut Rng {
        self.rng
    }

    /// This context's random number generator: the reference is to the
    /// generator that the context holds, and what is drawn through it is
    /// drawn from the context. Drawing leaves the mode of the context as it
    /// is.
    #[must_use]
    pub fn rng(&mut self) -> (rng: &mut Rng)
        ensures
            *rng == old(self).generator(),
            final(self).generator() == *final(rng),
            final(self).shrink() == old(self).shrink(),
            *final(final(self).lent()) == *final(old(self).lent()),
    {
        &mut *self.rng
    }

    /// Whether only shrinking mutations should be performed.
    ///
    /// When this is `true`, a mutator makes no mutation that increases the
    /// size or complexity of the value.
    #[must_use]
    #[verifier::when_used_as_spec(spec_shrink)]
    pub fn shrink(&self) -> (shrink: bool)
        ensures
            shrink == self.spec_shrink(),
    {
        self.shrink
    }
}

/// Where a mutation call stands.
#[derive(Clone, Copy)]
pub enum Phase {
    /// The counting pass, with the number of candidates registered so far.
    Count(u32),
    /// The selection pass: `current` candidates were passed over, and the one
    /// numbered `target` is to be applied.
    Mutate { current: u32, target: u32 },
}

/// The state of a [`Candidates`] registry, as contracts see it.
pub struct Registry {
    /// The generator, as it stands.
    pub rng: Rng,
    /// Whether the session is in shrink mode.
    pub shrink: bool,
    /// The pass that is under way, and how far it has come.
    pub phase: Phase,
    /// Whether an edit was applied through the registry.
    pub applied: bool,
}

impl Registry {
    /// Whether the registry can take registrations: no edit has been applied
    /// through it, and the selection pass has not run past its target.
    pub open spec fn ready(self) -> bool {
        &&& !self.applied
        &&& self.phase matches Phase::Mutate { current, target } ==> current <= target
    }

    /// Whether `n` more registrations fit into the counter.
    pub open spec fn has_room(self, n: nat) -> bool {
        self.phase matches Phase::Count(count) ==> count + n <= u32::MAX
    }

    /// Whether the next registration is the one that the selection pass is
    /// to apply.
    pub open spec fn selects_next(self) -> bool {
        self.phase matches Phase::Mutate { current, target } && current == target
    }

    /// How many registrations the selection pass still has to pass over
    /// before it reaches its target.
    pub open spec fn distance(self) -> nat {
        match self.phase {
            Phase::Count(_) => 0,
            Phase::Mutate { current, target } => (target - current) as nat,
        }
    }

    /// The registry after `n` registrations were counted or passed over.
    pub open spec fn advanced(self, n: nat) -> Registry {
        Registry {
            phase: match self.phase {
                Phase::Count(count) => Phase::Count((count + n) as u32),
                Phase::Mutate { current, target } => Phase::Mutate {
                    current: (current + n) as u32,
                    target,
                },
            },
            ..self
        }
    }
}

/// Whether `result` is one that an edit may return: success, or an error of
/// its own. The early-exit signal is the registry's to raise.
pub open spec fn edit_returns<V>(result: Result<V, Error>) -> bool {
    result matches Err(e) ==> !e.is_signal()
}

/// What the registry hands back for the edit that it applied.
pub open spec fn signalled(result: Result<(), Error>) -> Result<(), Error> {
    match result {
        Ok(_) => Err(Error::signal()),
        Err(e) => Err(e),
    }
}

/// The set of mutations that can be applied to a value.
///
/// A mutator registers each edit it could make with [`Candidates::mutation`].
/// During the counting pass the registry only counts them; during the
/// selection pass it runs the one whose number was drawn and skips the rest.
pub struct Candidates<'a> {
    rng: &'a mut Rng,
    shrink: bool,
    phase: Phase,
    applied_mutation: bool,
}

impl<'a> View for Candidates<'a> {
    type V = Registry;

    closed spec fn view(&self) -> Registry {
        Registry {
            rng: *self.rng,
            shrink: self.shrink,
            phase: self.phase,
            applied: self.applied_mutation,
        }
    }
}

impl<'a> Candidates<'a> {
    /// The reference to the session's generator that the registry was lent.
    /// A mutator that is handed the registry keeps it: what the generator
    /// is when the mutator is done is what the session goes on with.
    pub closed spec fn lent(&self) -> &'a mut Rng {
        self.rng
    }

    /// Registers a candidate mutation: `f` edits the value, and the mutator
    /// itself where it keeps state.
    ///
    /// While counting, and for every candidate but the chosen one while
    /// selecting, `f` is not called and nothing changes but the registry's
    /// counter. For the chosen candidate `f` is called once, with the context
    /// of the mutation, the mutator and the value; the call then returns the
    /// early-exit signal, or the error of `f`, and the mutator hands either
    /// on unchanged. The context holds the generator of the registry, and
    /// what `f` leaves of it is the generator of the registry from then on;
    /// `f` keeps the reference that the context was lent.
    pub fn mutation<M, T, F>(&mut self, mutator: &mut M, value: &mut T, f: F) -> (r: Result<
        (),
        Error,
    >) where F: FnOnce(&mut Context<'_>, &mut M, &mut T) -> Result<(), Error>
        requires
            old(self)@.ready(),
            old(self)@.has_room(1),
            forall|c: &mut Context<'_>, m: &mut M, v: &mut T|
                c.shrink() == old(self)@.shrink && c.generator() == old(self)@.rng && *m == *old(
                    mutator,
                ) && *v == *old(value) ==> call_requires(f, (c, m, v)),
            forall|c: &mut Context<'_>, m: &mut M, v: &mut T, res: Result<(), Error>|
                c.shrink() == old(self)@.shrink && *m == *old(mutator) && *v == *old(value)
                    && call_ensures(f, (c, m, v), res) ==> edit_returns(res)
                    && *final(final(c).lent()) == *final(c.lent()),
        ensures
            final(self)@.shrink == old(self)@.shrink,
            *final(final(self).lent()) == *final(old(self).lent()),
            !old(self)@.selects_next() ==> {
                &&& r is Ok
                &&& final(self)@ == old(self)@.advanced(1)
                &&& *final(mutator) == *old(mutator)
                &&& *final(value) == *old(value)
            },
            old(self)@.selects_next() ==> {
                &&& final(self)@.applied
                &&& final(self)@.phase == old(self)@.phase
                &&& exists|c: &mut Context<'_>, m: &mut M, v: &mut T, res: Result<(), Error>|
                    {
                        &&& #[trigger] call_ensures(f, (c, m, v), res)
                        &&& c.shrink() == old(self)@.shrink
                        &&& c.generator() == old(self)@.rng
                        &&& final(c).generator() == final(self)@.rng
                        &&& *m == *old(mutator)
                        &&& *final(m) == *final(mutator)
                        &&& *v == *old(value)
                        &&& *final(v) == *final(value)
                        &&& r == signalled(res)
                    }
            },
    {
        match self.phase {
            Phase::Count(count) => {
                self.phase = Phase::Count(count + 1);
                Ok(())
            },
            Phase::Mutate { current, target } => {
                if current == target {
                    self.applied_mutation = true;
                    let mut context = Context { rng: &mut *self.rng, shrink: self.shrink };
                    match f(&mut context, mutator, value) {
                        Ok(_) => Err(Error::early_exit()),
                        Err(e) => Err(e),
                    }
                } else {
                    self.phase = Phase::Mutate { current: current + 1, target };
                    Ok(())
                }
            },
        }
    }

    /// Whether only shrinking mutations should be registered.
    ///
    /// When this is `true`, register no mutation that can grow the value.
    pub fn shrink(&self) -> (shrink: bool)
        ensures
            shrink == self@.shrink,
    {
        self.shrink
    }

    /// A context for work that rides along with the edit that was applied.
    pub(crate) fn context(&mut self) -> (context: Context<'_>)
        ensures
            context.shrink() == old(self)@.shrink,
            context.generator() == old(self)@.rng,
            final(self)@.shrink == old(self)@.shrink,
            final(self)@.phase == old(self)@.phase,
            final(self)@.applied == old(self)@.applied,
            *final(final(self).lent()) == *final(old(self).lent()),
    {
        Context { rng: &mut *self.rng, shrink: self.shrink }
    }
}

/// What one mutation makes of a mutator and a value, in a session whose mode
/// is `shrink`.
///
/// - A value that the mutator rejects is left alone, and the error is the
///   mutator's, which is not [`ErrorKind::Exhausted`].
/// - A value for which the mutator has no candidate is left alone, and the
///   error is [`ErrorKind::Exhausted`].
/// - Otherwise exactly one candidate was applied, and the result is that of
///   its edit.
pub open spec fn mutated<T, M: Mutate<T>>(
    before: M,
    shrink: bool,
    value: T,
    after: M,
    new_value: T,
    r: Result<(), Error>,
) -> bool {
    match before.rejects(value, shrink) {
        Some(kind) => {
            &&& r == Err::<(), Error>(Error::of(kind))
            &&& !(kind is Exhausted)
            &&& after == before
            &&& new_value == value
        },
        None => if before.candidates(value, shrink) == 0 {
            &&& r == Err::<(), Error>(Error::of(ErrorKind::Exhausted))
            &&& after == before
            &&& new_value == value
        } else {
            exists|index: nat|
                index < before.candidates(value, shrink) && #[trigger] before.applies(
                    value,
                    shrink,
                    index,
                    after,
                    new_value,
                    r,
                )
        },
    }
}

/// Whether a mutation of `value` with `mutator` ends with the counting pass,
/// in a rejection or in exhaustion. Nothing is drawn then.
pub open spec fn rested<T, M: Mutate<T>>(mutator: M, shrink: bool, value: T) -> bool {
    mutator.rejects(value, shrink) is Some || mutator.candidates(value, shrink) == 0
}

/// Mutates `value` with `mutator` in a context of its own, which draws from
/// `rng` and has the mode `shrink`.
pub(crate) fn mutate_in<T, M: Mutate<T>>(
    rng: &mut Rng,
    shrink: bool,
    mutator: &mut M,
    value: &mut T,
) -> (r: Result<(), Error>)
    requires
        old(mutator).wf(),
        old(mutator).max_candidates() <= u32::MAX,
    ensures
        rested(*old(mutator), shrink, *old(value)) ==> *final(rng) == *old(rng),
        final(mutator).wf(),
        final(mutator).max_candidates() <= old(mutator).max_candidates(),
        r matches Err(e) ==> !e.is_signal(),
        mutated(*old(mutator), shrink, *old(value), *final(mutator), *final(value), r),
{
    let mut context = Context { rng, shrink };
    context.mutate_with(mutator, value)
}

impl<'a> Context<'a> {
    /// Mutates `value` with `mutator`: counts its candidates, draws one and
    /// applies it.
    ///
    /// The two places that a mutator true to its contract cannot reach, a
    /// selection pass that runs to its end or applies an edit without
    /// handing on the signal, are proved unreachable. A mutator that was not
    /// verified and breaks the contract makes the call panic there.
    pub(crate) fn mutate_with<T, M: Mutate<T>>(&mut self, mutator: &mut M, value: &mut T) -> (r:
        Result<(), Error>)
        requires
            old(mutator).wf(),
            old(mutator).max_candidates() <= u32::MAX,
        ensures
            final(self).shrink() == old(self).shrink(),
            *final(final(self).lent()) == *final(old(self).lent()),
            rested(*old(mutator), old(self).shrink(), *old(value)) ==> final(self).generator()
                == old(self).generator(),
            final(mutator).wf(),
            final(mutator).max_candidates() <= old(mutator).max_candidates(),
            r matches Err(e) ==> !e.is_signal(),
            mutated(
                *old(mutator),
                old(self).shrink(),
                *old(value),
                *final(mutator),
                *final(value),
                r,
            ),
    {
        self.choose_and_apply_mutation(mutator, value)
    }

    fn choose_and_apply_mutation<T, M: Mutate<T>>(&mut self, mutator: &mut M, value: &mut T) -> (r:
        Result<(), Error>)
        requires
            old(mutator).wf(),
            old(mutator).max_candidates() <= u32::MAX,
        ensures
            final(self).shrink() == old(self).shrink(),
            *final(final(self).lent()) == *final(old(self).lent()),
            rested(*old(mutator), old(self).shrink(), *old(value)) ==> final(self).generator()
                == old(self).generator(),
            final(mutator).wf(),
            final(mutator).max_candidates() <= old(mutator).max_candidates(),
            r matches Err(e) ==> !e.is_signal(),
            mutated(
                *old(mutator),
                old(self).shrink(),
                *old(value),
                *final(mutator),
                *final(value),
                r,
            ),
    {
        // Count how many mutations could be performed.
        let mut candidates = Candidates {
            rng: &mut *self.rng,
            shrink: self.shrink,
            phase: Phase::Count(0),
            applied_mutation: false,
        };
        mutator.mutate(&mut candidates, value)?;

        let count = match candidates.phase {
            Phase::Count(count) => count as usize,
            Phase::Mutate { .. } => vstd::pervasive::unreached(),
        };
        if count == 0 {
            return Err(Error::exhausted());
        }
        // Choose the mutation to perform.

        let target = match candidates.rng.gen_index(count) {
            Some(target) => target,
            None => vstd::pervasive::unreached(),
        };

        // Perform it. The registry applies the edit and raises the signal, and
        // the mutator's contract has the signal reach this frame.
        candidates.phase = Phase::Mutate { current: 0, target: target as u32 };
        match mutator.mutate(&mut candidates, value) {
            Err(e) => if e.is_early_exit() {
                Ok(())
            } else {
                Err(e)
            },
            Ok(_) => vstd::pervasive::unreached(),
        }
    }
}

} // verus!
