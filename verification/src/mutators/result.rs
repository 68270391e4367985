//! Mutators of `core::result::Result` values.

use crate::context::{Candidates, Context};
use crate::error::{Error, ErrorKind};
use crate::mutate::{DefaultMutate, Generate, Mutate};
use vstd::prelude::*;

verus! {

broadcast use crate::error::group_error_facts;

/// A mutator for `Result<T, E>` values.
///
/// The value of either case is mutated in place by the mutator of that
/// case. An `Err` can also become a generated `Ok`, and an `Ok` a generated
/// `Err` unless the session is shrinking. Made by [`result`].
#[derive(Clone, Debug)]
pub struct Result<M, N> {
    pub ok_mutator: M,
    pub err_mutator: N,
}

/// A mutator for `Result<T, E>` values, built on a mutator for each case.
pub fn result<M, N>(ok_mutator: M, err_mutator: N) -> (m: Result<M, N>)
    ensures
        m.ok_mutator == ok_mutator,
        m.err_mutator == err_mutator,
{
    Result { ok_mutator, err_mutator }
}

impl<M, N, T, E> Mutate<core::result::Result<T, E>> for Result<M, N> where
    M: Generate<T>,
    N: Generate<E>,
 {
    open spec fn wf(&self) -> bool {
        &&& self.ok_mutator.wf()
        &&& self.err_mutator.wf()
        &&& self.ok_mutator.max_candidates() + 1 <= u32::MAX
        &&& self.err_mutator.max_candidates() + 1 <= u32::MAX
    }

    open spec fn rejects(
        &self,
        value: core::result::Result<T, E>,
        shrink: bool,
    ) -> Option<ErrorKind> {
        match value {
            Ok(x) => self.ok_mutator.rejects(x, shrink),
            Err(e) => self.err_mutator.rejects(e, shrink),
        }
    }

    open spec fn candidates(&self, value: core::result::Result<T, E>, shrink: bool) -> nat {
        match value {
            Ok(x) => self.ok_mutator.candidates(x, shrink) + if shrink {
                0nat
            } else {
                1nat
            },
            Err(e) => self.err_mutator.candidates(e, shrink) + 1,
        }
    }

    open spec fn max_candidates(&self) -> nat {
        if self.ok_mutator.max_candidates() >= self.err_mutator.max_candidates() {
            self.ok_mutator.max_candidates() + 1
        } else {
            self.err_mutator.max_candidates() + 1
        }
    }

    open spec fn applies(
        &self,
        value: core::result::Result<T, E>,
        shrink: bool,
        index: nat,
        after: Self,
        new_value: core::result::Result<T, E>,
        result: core::result::Result<(), Error>,
    ) -> bool {
        match value {
            Ok(x) => if index < self.ok_mutator.candidates(x, shrink) {
                &&& new_value matches Ok(new_x)
                &&& self.ok_mutator.applies(x, shrink, index, after.ok_mutator, new_x, result)
                &&& after.err_mutator == self.err_mutator
            } else {
                // The value becomes a generated `Err`, or stays where that
                // cannot be generated.
                &&& after.ok_mutator == self.ok_mutator
                &&& match result {
                    Ok(_) => new_value matches Err(generated) && self.err_mutator.generates(
                        shrink,
                        after.err_mutator,
                        Ok(generated),
                    ),
                    Err(e) => new_value == value && self.err_mutator.generates(
                        shrink,
                        after.err_mutator,
                        Err(e),
                    ),
                }
            },
            Err(e) => if index < self.err_mutator.candidates(e, shrink) {
                &&& new_value matches Err(new_e)
                &&& self.err_mutator.applies(e, shrink, index, after.err_mutator, new_e, result)
                &&& after.ok_mutator == self.ok_mutator
            } else {
                // The value becomes a generated `Ok`, or stays where that
                // cannot be generated.
                &&& after.err_mutator == self.err_mutator
                &&& match result {
                    Ok(_) => new_value matches Ok(generated) && self.ok_mutator.generates(
                        shrink,
                        after.ok_mutator,
                        Ok(generated),
                    ),
                    Err(error) => new_value == value && self.ok_mutator.generates(
                        shrink,
                        after.ok_mutator,
                        Err(error),
                    ),
                }
            },
        }
    }

    fn mutate(&mut self, c: &mut Candidates<'_>, value: &mut core::result::Result<T, E>) -> (r:
        core::result::Result<(), Error>) {
        match value {
            Ok(x) => {
                self.ok_mutator.mutate(c, x)?;
                if !c.shrink() {
                    let fail = |
                        ctx: &mut Context<'_>,
                        m: &mut Result<M, N>,
                        v: &mut core::result::Result<T, E>,
                    | -> (res: core::result::Result<(), Error>)
                        requires
                            m.wf(),
                        ensures
                            *final(final(ctx).lent()) == *final(old(ctx).lent()),
                            res matches Err(e) ==> !e.is_signal(),
                            final(m).wf(),
                            final(m).max_candidates() <= old(m).max_candidates(),
                            final(m).ok_mutator == old(m).ok_mutator,
                            match res {
                                Ok(_) => *final(v) matches Err(generated) && old(
                                    m,
                                ).err_mutator.generates(
                                    old(ctx).shrink(),
                                    final(m).err_mutator,
                                    Ok(generated),
                                ),
                                Err(e) => *final(v) == *old(v) && old(m).err_mutator.generates(
                                    old(ctx).shrink(),
                                    final(m).err_mutator,
                                    Err(e),
                                ),
                            },
                        {
                            match m.err_mutator.generate(ctx) {
                                Ok(generated) => {
                                    *v = Err(generated);
                                    Ok(())
                                },
                                Err(e) => Err(e),
                            }
                        };
                    c.mutation(self, value, fail)?;
                }
            },
            Err(e) => {
                self.err_mutator.mutate(c, e)?;
                let succeed = |
                    ctx: &mut Context<'_>,
                    m: &mut Result<M, N>,
                    v: &mut core::result::Result<T, E>,
                | -> (res: core::result::Result<(), Error>)
                    requires
                        m.wf(),
                    ensures
                        *final(final(ctx).lent()) == *final(old(ctx).lent()),
                        res matches Err(e) ==> !e.is_signal(),
                        final(m).wf(),
                        final(m).max_candidates() <= old(m).max_candidates(),
                        final(m).err_mutator == old(m).err_mutator,
                        match res {
                            Ok(_) => *final(v) matches Ok(generated) && old(m).ok_mutator.generates(
                                old(ctx).shrink(),
                                final(m).ok_mutator,
                                Ok(generated),
                            ),
                            Err(e) => *final(v) == *old(v) && old(m).ok_mutator.generates(
                                old(ctx).shrink(),
                                final(m).ok_mutator,
                                Err(e),
                            ),
                        },
                    {
                        match m.ok_mutator.generate(ctx) {
                            Ok(generated) => {
                                *v = Ok(generated);
                                Ok(())
                            },
                            Err(e) => Err(e),
                        }
                    };
                c.mutation(self, value, succeed)?;
            },
        }
        Ok(())
    }
}

impl<T, E> DefaultMutate for core::result::Result<T, E> where
    T: DefaultMutate,
    T::DefaultMutate: Generate<T>,
    E: DefaultMutate,
    E::DefaultMutate: Generate<E>,
 {
    type DefaultMutate = Result<T::DefaultMutate, E::DefaultMutate>;
}

impl<M: Default, N: Default> Default for Result<M, N> {
    fn default() -> (m: Self)
        ensures
            call_ensures(M::default, (), m.ok_mutator),
            call_ensures(N::default, (), m.err_mutator),
    {
        Result { ok_mutator: M::default(), err_mutator: N::default() }
    }
}

} // verus!
