//! Mutators of `core::option::Option` values.

use crate::context::{Candidates, Context};
use crate::error::{Error, ErrorKind};
use crate::mutate::{DefaultMutate, Generate, Mutate};
use vstd::prelude::*;

verus! {

broadcast use crate::error::group_error_facts;

/// A mutator for `Option<T>` values.
///
/// An absent value becomes a generated one, unless the session is
/// shrinking. A present value is mutated in place by `mutator`, or becomes
/// absent. Made by [`option`].
#[derive(Clone, Debug)]
pub struct Option<M> {
    pub mutator: M,
}

/// A mutator for `Option<T>` values, built on a mutator of `T`.
pub fn option<M>(mutator: M) -> (m: Option<M>)
    ensures
        m.mutator == mutator,
{
    Option { mutator }
}

/// Whether generating with `mutator` can turn an absent value into
/// `new_value`, with `result`.
pub open spec fn fills<M: Generate<T>, T>(
    mutator: M,
    shrink: bool,
    after: M,
    new_value: core::option::Option<T>,
    result: Result<(), Error>,
) -> bool {
    match result {
        Ok(_) => new_value matches Some(generated) && mutator.generates(
            shrink,
            after,
            Ok(generated),
        ),
        Err(e) => new_value is None && mutator.generates(shrink, after, Err(e)),
    }
}

impl<M, T> Mutate<core::option::Option<T>> for Option<M> where M: Generate<T> {
    open spec fn wf(&self) -> bool {
        &&& self.mutator.wf()
        &&& self.mutator.max_candidates() + 1 <= u32::MAX
    }

    open spec fn rejects(
        &self,
        value: core::option::Option<T>,
        shrink: bool,
    ) -> core::option::Option<ErrorKind> {
        match value {
            None => None,
            Some(inner) => self.mutator.rejects(inner, shrink),
        }
    }

    open spec fn candidates(&self, value: core::option::Option<T>, shrink: bool) -> nat {
        match value {
            None => if shrink {
                0
            } else {
                1
            },
            Some(inner) => self.mutator.candidates(inner, shrink) + 1,
        }
    }

    open spec fn max_candidates(&self) -> nat {
        self.mutator.max_candidates() + 1
    }

    open spec fn applies(
        &self,
        value: core::option::Option<T>,
        shrink: bool,
        index: nat,
        after: Self,
        new_value: core::option::Option<T>,
        result: Result<(), Error>,
    ) -> bool {
        match value {
            None => fills(self.mutator, shrink, after.mutator, new_value, result),
            Some(inner) => if index < self.mutator.candidates(inner, shrink) {
                &&& new_value matches Some(new_inner)
                &&& self.mutator.applies(inner, shrink, index, after.mutator, new_inner, result)
            } else {
                &&& new_value is None
                &&& result is Ok
                &&& after == *self
            },
        }
    }

    fn mutate(&mut self, c: &mut Candidates<'_>, value: &mut core::option::Option<T>) -> (r: Result<
        (),
        Error,
    >) {
        if c.shrink() && value.is_none() {
            return Ok(());
        }
        match value {
            None => {
                let fill = |
                    ctx: &mut Context<'_>,
                    m: &mut Option<M>,
                    v: &mut core::option::Option<T>,
                | -> (res: Result<(), Error>)
                    requires
                        m.wf(),
                        *v is None,
                    ensures
                        *final(final(ctx).lent()) == *final(old(ctx).lent()),
                        res matches Err(e) ==> !e.is_signal(),
                        final(m).wf(),
                        final(m).max_candidates() <= old(m).max_candidates(),
                        fills(old(m).mutator, old(ctx).shrink(), final(m).mutator, *final(v), res),
                    {
                        match m.mutator.generate(ctx) {
                            Ok(generated) => {
                                *v = Some(generated);
                                Ok(())
                            },
                            Err(e) => Err(e),
                        }
                    };
                c.mutation(self, value, fill)
            },
            Some(inner) => {
                self.mutator.mutate(c, inner)?;
                let clear = |
                    ctx: &mut Context<'_>,
                    m: &mut Option<M>,
                    v: &mut core::option::Option<T>,
                | -> (res: Result<(), Error>)
                    ensures
                        *final(final(ctx).lent()) == *final(old(ctx).lent()),
                        res is Ok,
                        *final(m) == *old(m),
                        *final(v) is None,
                    {
                        *v = None;
                        Ok(())
                    };
                c.mutation(self, value, clear)
            },
        }
    }
}

/// A mutator for `Option<T>` values that always produces present values.
///
/// An absent value becomes a generated one, unless the session is
/// shrinking. A present value is mutated in place by `mutator`. Made by
/// [`some`].
pub struct SomeMutator<M> {
    pub mutator: M,
}

/// A mutator for `Option<T>` values that always produces `Some` values.
pub fn some<M>(mutator: M) -> (m: SomeMutator<M>)
    ensures
        m.mutator == mutator,
{
    SomeMutator { mutator }
}

impl<M, T> Mutate<core::option::Option<T>> for SomeMutator<M> where M: Generate<T> {
    open spec fn wf(&self) -> bool {
        &&& self.mutator.wf()
        &&& self.mutator.max_candidates() + 1 <= u32::MAX
    }

    open spec fn rejects(
        &self,
        value: core::option::Option<T>,
        shrink: bool,
    ) -> core::option::Option<ErrorKind> {
        match value {
            None => None,
            Some(inner) => self.mutator.rejects(inner, shrink),
        }
    }

    open spec fn candidates(&self, value: core::option::Option<T>, shrink: bool) -> nat {
        match value {
            None => if shrink {
                0
            } else {
                1
            },
            Some(inner) => self.mutator.candidates(inner, shrink),
        }
    }

    open spec fn max_candidates(&self) -> nat {
        self.mutator.max_candidates() + 1
    }

    open spec fn applies(
        &self,
        value: core::option::Option<T>,
        shrink: bool,
        index: nat,
        after: Self,
        new_value: core::option::Option<T>,
        result: Result<(), Error>,
    ) -> bool {
        match value {
            None => fills(self.mutator, shrink, after.mutator, new_value, result),
            Some(inner) => {
                &&& new_value matches Some(new_inner)
                &&& self.mutator.applies(inner, shrink, index, after.mutator, new_inner, result)
            },
        }
    }

    fn mutate(&mut self, c: &mut Candidates<'_>, value: &mut core::option::Option<T>) -> (r: Result<
        (),
        Error,
    >) {
        match value {
            None => {
                if c.shrink() {
                    return Ok(());
                }
                let fill = |
                    ctx: &mut Context<'_>,
                    m: &mut SomeMutator<M>,
                    v: &mut core::option::Option<T>,
                | -> (res: Result<(), Error>)
                    requires
                        m.wf(),
                        *v is None,
                    ensures
                        *final(final(ctx).lent()) == *final(old(ctx).lent()),
                        res matches Err(e) ==> !e.is_signal(),
                        final(m).wf(),
                        final(m).max_candidates() <= old(m).max_candidates(),
                        fills(old(m).mutator, old(ctx).shrink(), final(m).mutator, *final(v), res),
                    {
                        match m.mutator.generate(ctx) {
                            Ok(generated) => {
                                *v = Some(generated);
                                Ok(())
                            },
                            Err(e) => Err(e),
                        }
                    };
                c.mutation(self, value, fill)
            },
            Some(inner) => {
                self.mutator.mutate(c, inner)
            },
        }
    }
}

/// A mutator for `Option<T>` values that always produces absent values.
///
/// Its one candidate, for a present value, makes the value absent. Made by
/// [`none`].
pub struct NoneMutator {
    _private: (),
}

/// A mutator for `Option<T>` values that always produces `None` values.
pub fn none() -> NoneMutator {
    NoneMutator { _private: () }
}

impl<T> Mutate<core::option::Option<T>> for NoneMutator {
    open spec fn wf(&self) -> bool {
        true
    }

    open spec fn rejects(
        &self,
        value: core::option::Option<T>,
        shrink: bool,
    ) -> core::option::Option<ErrorKind> {
        None
    }

    open spec fn candidates(&self, value: core::option::Option<T>, shrink: bool) -> nat {
        if value is Some {
            1
        } else {
            0
        }
    }

    open spec fn max_candidates(&self) -> nat {
        1
    }

    open spec fn applies(
        &self,
        value: core::option::Option<T>,
        shrink: bool,
        index: nat,
        after: Self,
        new_value: core::option::Option<T>,
        result: Result<(), Error>,
    ) -> bool {
        &&& result is Ok
        &&& new_value is None
        &&& after == *self
    }

    fn mutate(&mut self, c: &mut Candidates<'_>, value: &mut core::option::Option<T>) -> (r: Result<
        (),
        Error,
    >) {
        if value.is_some() {
            let clear = |
                ctx: &mut Context<'_>,
                m: &mut NoneMutator,
                v: &mut core::option::Option<T>,
            | -> (res: Result<(), Error>)
                ensures
                    *final(final(ctx).lent()) == *final(old(ctx).lent()),
                    res is Ok,
                    *final(m) == *old(m),
                    *final(v) is None,
                {
                    *v = None;
                    Ok(())
                };
            c.mutation(self, value, clear)?;
        }
        Ok(())
    }
}

impl<T> DefaultMutate for core::option::Option<T> where
    T: DefaultMutate,
    T::DefaultMutate: Generate<T>,
 {
    type DefaultMutate = Option<T::DefaultMutate>;
}

impl<M: Default> Default for Option<M> {
    fn default() -> (m: Self)
        ensures
            call_ensures(M::default, (), m.mutator),
    {
        Option { mutator: M::default() }
    }
}

} // verus!
