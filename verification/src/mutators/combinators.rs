//! Combinators: mutators built from other mutators.

use crate::context::{edit_returns, mutated, Candidates, Context};
use crate::error::{Error, ErrorKind};
use crate::mutate::{Generate, Mutate};
use vstd::prelude::*;

verus! {

broadcast use crate::error::group_error_facts;

/// A mutator that performs a mutation of one of two mutators.
///
/// The candidates of `left` come first and those of `right` after them, and
/// one is drawn from the whole row. Made by [`Mutate::or`].
pub struct Or<M1, M2> {
    pub left: M1,
    pub right: M2,
}

impl<M1, M2, T> Mutate<T> for Or<M1, M2> where M1: Mutate<T>, M2: Mutate<T> {
    open spec fn wf(&self) -> bool {
        &&& self.left.wf()
        &&& self.right.wf()
        &&& self.left.max_candidates() + self.right.max_candidates() <= u32::MAX
    }

    open spec fn rejects(&self, value: T, shrink: bool) -> Option<ErrorKind> {
        match self.left.rejects(value, shrink) {
            Some(kind) => Some(kind),
            None => self.right.rejects(value, shrink),
        }
    }

    open spec fn candidates(&self, value: T, shrink: bool) -> nat {
        self.left.candidates(value, shrink) + self.right.candidates(value, shrink)
    }

    open spec fn max_candidates(&self) -> nat {
        self.left.max_candidates() + self.right.max_candidates()
    }

    open spec fn applies(
        &self,
        value: T,
        shrink: bool,
        index: nat,
        after: Self,
        new_value: T,
        result: Result<(), Error>,
    ) -> bool {
        let n = self.left.candidates(value, shrink);
        if index < n {
            &&& self.left.applies(value, shrink, index, after.left, new_value, result)
            &&& after.right == self.right
        } else {
            &&& self.right.applies(
                value,
                shrink,
                (index - n) as nat,
                after.right,
                new_value,
                result,
            )
            &&& after.left == self.left
        }
    }

    fn mutate(&mut self, c: &mut Candidates<'_>, value: &mut T) -> (r: Result<(), Error>) {
        self.left.mutate(c, value)?;
        self.right.mutate(c, value)?;
        Ok(())
    }
}

/// A mutator that maps a function over the mutations of another mutator.
///
/// Its candidates are those of `mutator`. When one of them was applied, `f`
/// is given the new value and what it returns takes the value's place; `f` is
/// never a candidate of its own. Made by [`Mutate::map`].
#[derive(Clone, Debug)]
pub struct MapMutator<M, F> {
    pub mutator: M,
    pub f: F,
}

/// Whether `f`, in a session of mode `shrink`, can turn `value` into
/// `result`.
pub open spec fn maps_to<T, F: Fn(&mut Context<'_>, &T) -> Result<T, Error>>(
    f: F,
    shrink: bool,
    value: T,
    result: Result<T, Error>,
) -> bool {
    exists|c: &mut Context<'_>|
        c.shrink() == shrink && #[trigger] call_ensures(f, (c, &value), result)
}

impl<M, F, T> Mutate<T> for MapMutator<M, F> where
    M: Mutate<T>,
    F: Fn(&mut Context<'_>, &T) -> Result<T, Error>,
 {
    open spec fn wf(&self) -> bool {
        &&& self.mutator.wf()
        &&& forall|c: &mut Context<'_>, v: &T| call_requires(self.f, (c, v))
        &&& forall|c: &mut Context<'_>, v: &T, res: Result<T, Error>|
            call_ensures(self.f, (c, v), res) ==> edit_returns(res)
    }

    open spec fn rejects(&self, value: T, shrink: bool) -> Option<ErrorKind> {
        self.mutator.rejects(value, shrink)
    }

    open spec fn candidates(&self, value: T, shrink: bool) -> nat {
        self.mutator.candidates(value, shrink)
    }

    open spec fn max_candidates(&self) -> nat {
        self.mutator.max_candidates()
    }

    open spec fn applies(
        &self,
        value: T,
        shrink: bool,
        index: nat,
        after: Self,
        new_value: T,
        result: Result<(), Error>,
    ) -> bool {
        &&& after.f == self.f
        &&& {
            ||| {
                // The edit failed, and `f` was not called.
                &&& result is Err
                &&& self.mutator.applies(value, shrink, index, after.mutator, new_value, result)
            }
            ||| exists|edited: T|
                {
                    &&& #[trigger] self.mutator.applies(
                        value,
                        shrink,
                        index,
                        after.mutator,
                        edited,
                        Ok(()),
                    )
                    &&& match result {
                        Ok(_) => maps_to(self.f, shrink, edited, Ok(new_value)),
                        Err(e) => new_value == edited && maps_to(self.f, shrink, edited, Err(e)),
                    }
                }
        }
    }

    fn mutate(&mut self, c: &mut Candidates<'_>, value: &mut T) -> (r: Result<(), Error>) {
        let ghost before = *self;
        let ghost c0 = c@;
        let ghost v0 = *value;
        match self.mutator.mutate(c, value) {
            Err(e) => if e.is_early_exit() {
                let ghost edited = *value;
                let ghost selected = before.rejects(v0, c0.shrink) is None;
                assert(selected ==> before.mutator.applies(
                    v0,
                    c0.shrink,
                    c0.distance(),
                    self.mutator,
                    edited,
                    Ok(()),
                ));
                let mut context = c.context();
                match (self.f)(&mut context, &*value) {
                    Ok(mapped) => {
                        assert(maps_to(self.f, c0.shrink, edited, Ok(mapped)));
                        *value = mapped;
                        assert(selected ==> before.applies(
                            v0,
                            c0.shrink,
                            c0.distance(),
                            *self,
                            *value,
                            Ok(()),
                        ));
                        Err(Error::early_exit())
                    },
                    Err(e) => {
                        assert(maps_to(self.f, c0.shrink, edited, Err(e)));
                        assert(selected ==> before.applies(
                            v0,
                            c0.shrink,
                            c0.distance(),
                            *self,
                            *value,
                            Err(e),
                        ));
                        Err(e)
                    },
                }
            } else {
                Err(e)
            },
            Ok(_) => Ok(()),
        }
    }
}

/// A mapping mutator is well formed where its mutator is and its function
/// can be called on every value and returns no signal, and it has the
/// candidates of its mutator. This is [`Mutate::wf`] of the mapping mutator,
/// for a caller that holds a function of a type of its own.
pub proof fn lemma_map_is_well_formed<M, F, T>(mapped: MapMutator<M, F>) where
    M: Mutate<T>,
    F: Fn(&mut Context<'_>, &T) -> Result<T, Error>,

    requires
        mapped.mutator.wf(),
        forall|c: &mut Context<'_>, v: &T| call_requires(mapped.f, (c, v)),
        forall|c: &mut Context<'_>, v: &T, res: Result<T, Error>|
            call_ensures(mapped.f, (c, v), res) ==> edit_returns(res),
    ensures
        mapped.wf(),
        mapped.max_candidates() == mapped.mutator.max_candidates(),
        forall|value: T, shrink: bool| #[trigger]
            mapped.rejects(value, shrink) == mapped.mutator.rejects(value, shrink),
        forall|value: T, shrink: bool| #[trigger]
            mapped.candidates(value, shrink) == mapped.mutator.candidates(value, shrink),
{
}

/// What a mutation with a mapping mutator makes of a value is what the
/// function makes of what a mutation with its mutator makes of the value.
pub proof fn lemma_map_applies_function<M, F, T>(
    mapped: MapMutator<M, F>,
    shrink: bool,
    value: T,
    after: MapMutator<M, F>,
    new_value: T,
    r: Result<(), Error>,
) where M: Mutate<T>, F: Fn(&mut Context<'_>, &T) -> Result<T, Error>
    requires
        mutated(mapped, shrink, value, after, new_value, r),
    ensures
        r is Ok ==> after.f == mapped.f && exists|edited: T|
            {
                &&& #[trigger] mutated(mapped.mutator, shrink, value, after.mutator, edited, Ok(()))
                &&& maps_to(mapped.f, shrink, edited, Ok(new_value))
            },
        r matches Err(e) ==> {
            // The mutator failed, or the function did.
            ||| mutated(mapped.mutator, shrink, value, after.mutator, new_value, r)
            ||| mutated(mapped.mutator, shrink, value, after.mutator, new_value, Ok(()))
                && maps_to(mapped.f, shrink, new_value, Err(e))
        },
{
    if r is Err && mapped.rejects(value, shrink) is None && mapped.candidates(value, shrink) > 0 {
        let index = choose|index: nat|
            index < mapped.candidates(value, shrink) && #[trigger] mapped.applies(
                value,
                shrink,
                index,
                after,
                new_value,
                r,
            );
        if !mapped.mutator.applies(value, shrink, index, after.mutator, new_value, r) {
            let edited = choose|edited: T|
                {
                    &&& #[trigger] mapped.mutator.applies(
                        value,
                        shrink,
                        index,
                        after.mutator,
                        edited,
                        Ok(()),
                    )
                    &&& new_value == edited && maps_to(mapped.f, shrink, edited, Err(r->Err_0))
                };
            assert(mutated(mapped.mutator, shrink, value, after.mutator, new_value, Ok(())));
        }
    }
    if r is Ok {
        assert(r->Ok_0 == ());
        let index = choose|index: nat|
            index < mapped.candidates(value, shrink) && #[trigger] mapped.applies(
                value,
                shrink,
                index,
                after,
                new_value,
                r,
            );
        let edited = choose|edited: T|
            {
                &&& #[trigger] mapped.mutator.applies(
                    value,
                    shrink,
                    index,
                    after.mutator,
                    edited,
                    Ok(()),
                )
                &&& maps_to(mapped.f, shrink, edited, Ok(new_value))
            };
        assert(mutated(mapped.mutator, shrink, value, after.mutator, edited, Ok(())));
    }
}

/// Whatever holds of every value that the function returns holds of every
/// value that a mutation with the mapping mutator leaves: a function that
/// clears the two lowest bits makes a mutator of multiples of four.
pub proof fn lemma_map_keeps<M, F, T>(
    mapped: MapMutator<M, F>,
    holds: spec_fn(T) -> bool,
    shrink: bool,
    value: T,
    after: MapMutator<M, F>,
    new_value: T,
) where M: Mutate<T>, F: Fn(&mut Context<'_>, &T) -> Result<T, Error>
    requires
        forall|c: &mut Context<'_>, v: &T, mapped_value: T| #[trigger]
            call_ensures(mapped.f, (c, v), Ok(mapped_value)) ==> holds(mapped_value),
        mutated(mapped, shrink, value, after, new_value, Ok(())),
    ensures
        holds(new_value),
{
    lemma_map_applies_function(mapped, shrink, value, after, new_value, Ok(()));
}

/// A mutator that projects a value to a part of it and applies a mutator to
/// that part.
///
/// The part is read with `get`, mutated by `mutator`, and put back with
/// `put`, which makes the new whole of the old whole and the new part. The
/// candidates are those that `mutator` has for the part. Made by
/// [`Mutate::proj`].
#[derive(Clone, Debug)]
pub struct Proj<M, G, P> {
    pub mutator: M,
    pub get: G,
    pub put: P,
}

/// The part that `get` reads from `value`, where it can read one.
pub open spec fn part_of<T, U, G: Fn(&T) -> U>(get: G, value: T) -> U {
    choose|part: U| call_ensures(get, (&value,), part)
}

impl<M, G, P, T, U> Mutate<T> for Proj<M, G, P> where
    M: Mutate<U>,
    G: Fn(&T) -> U,
    P: Fn(&T, U) -> T,
 {
    /// Both functions can be called on every value, and `get` reads one part
    /// from one value.
    open spec fn wf(&self) -> bool {
        &&& self.mutator.wf()
        &&& forall|whole: &T| call_requires(self.get, (whole,))
        &&& forall|whole: &T, part: U| call_requires(self.put, (whole, part))
        &&& forall|whole: &T, part: U, other: U|
            call_ensures(self.get, (whole,), part) && call_ensures(self.get, (whole,), other)
                ==> part == other
    }

    open spec fn rejects(&self, value: T, shrink: bool) -> Option<ErrorKind> {
        self.mutator.rejects(part_of(self.get, value), shrink)
    }

    open spec fn candidates(&self, value: T, shrink: bool) -> nat {
        self.mutator.candidates(part_of(self.get, value), shrink)
    }

    open spec fn max_candidates(&self) -> nat {
        self.mutator.max_candidates()
    }

    open spec fn applies(
        &self,
        value: T,
        shrink: bool,
        index: nat,
        after: Self,
        new_value: T,
        result: Result<(), Error>,
    ) -> bool {
        &&& after.get == self.get
        &&& after.put == self.put
        &&& exists|part: U, edited: U|
            {
                &&& call_ensures(self.get, (&value,), part)
                &&& #[trigger] self.mutator.applies(
                    part,
                    shrink,
                    index,
                    after.mutator,
                    edited,
                    result,
                )
                &&& match result {
                    Ok(_) => call_ensures(self.put, (&value, edited), new_value),
                    // The part of a failed edit is not put back.
                    Err(_) => new_value == value,
                }
            }
    }

    fn mutate(&mut self, c: &mut Candidates<'_>, value: &mut T) -> (r: Result<(), Error>) {
        let ghost before = *self;
        let ghost c0 = c@;
        let ghost whole = *value;
        let mut part = (self.get)(&*value);
        let ghost read = part;
        assert(read == part_of(before.get, whole));
        match self.mutator.mutate(c, &mut part) {
            Err(e) => {
                let ghost selected = before.rejects(whole, c0.shrink) is None;
                assert(selected ==> before.mutator.applies(
                    read,
                    c0.shrink,
                    c0.distance(),
                    self.mutator,
                    part,
                    crate::mutate::edit_result(Err(e)),
                ));
                if e.is_early_exit() {
                    *value = (self.put)(&*value, part);
                }
                Err(e)
            },
            Ok(_) => Ok(()),
        }
    }
}

/// A projecting mutator is well formed where its mutator is, both functions
/// can be called on every value, and `get` reads one part from one value;
/// and it has the candidates of its mutator. This is [`Mutate::wf`] of the
/// projecting mutator, for a caller that holds functions of types of its
/// own.
pub proof fn lemma_proj_is_well_formed<M, G, P, T, U>(projected: Proj<M, G, P>) where
    M: Mutate<U>,
    G: Fn(&T) -> U,
    P: Fn(&T, U) -> T,

    requires
        projected.mutator.wf(),
        forall|whole: &T| call_requires(projected.get, (whole,)),
        forall|whole: &T, part: U| call_requires(projected.put, (whole, part)),
        forall|whole: &T, part: U, other: U|
            call_ensures(projected.get, (whole,), part) && call_ensures(
                projected.get,
                (whole,),
                other,
            ) ==> part == other,
    ensures
        <Proj<M, G, P> as Mutate<T>>::wf(&projected),
        <Proj<M, G, P> as Mutate<T>>::max_candidates(&projected)
            == projected.mutator.max_candidates(),
{
}

/// What a successful mutation with a projecting mutator makes of a value is
/// what `put` makes of the value and of what a mutation with its mutator
/// makes of the part that `get` reads.
pub proof fn lemma_proj_puts_back<M, G, P, T, U>(
    projected: Proj<M, G, P>,
    shrink: bool,
    value: T,
    after: Proj<M, G, P>,
    new_value: T,
) where M: Mutate<U>, G: Fn(&T) -> U, P: Fn(&T, U) -> T
    requires
        <Proj<M, G, P> as Mutate<T>>::wf(&projected),
        mutated(projected, shrink, value, after, new_value, Ok(())),
    ensures
        exists|part: U, edited: U|
            {
                &&& call_ensures(projected.get, (&value,), part)
                &&& #[trigger] mutated(
                    projected.mutator,
                    shrink,
                    part,
                    after.mutator,
                    edited,
                    Ok(()),
                )
                &&& call_ensures(projected.put, (&value, edited), new_value)
            },
{
    let index = choose|index: nat|
        index < projected.candidates(value, shrink) && #[trigger] projected.applies(
            value,
            shrink,
            index,
            after,
            new_value,
            Ok(()),
        );
    let (part, edited) = choose|part: U, edited: U|
        {
            &&& call_ensures(projected.get, (&value,), part)
            &&& #[trigger] projected.mutator.applies(
                part,
                shrink,
                index,
                after.mutator,
                edited,
                Ok(()),
            )
            &&& call_ensures(projected.put, (&value, edited), new_value)
        };
    assert(part == part_of(projected.get, value));
    assert(mutated(projected.mutator, shrink, part, after.mutator, edited, Ok(())));
}

/// A mutator that always produces the same, given value.
///
/// It has one candidate, which overwrites the value with a clone of the
/// given one. Made by [`just`].
#[derive(Clone, Debug)]
pub struct Just<T> {
    pub value: T,
}

/// A mutator that always produces a clone of `value`.
///
/// This is a base case for other combinators, such as [`Mutate::or`].
pub fn just<T>(value: T) -> (m: Just<T>)
    ensures
        m.value == value,
{
    Just { value }
}

impl<T> Mutate<T> for Just<T> where T: Clone {
    open spec fn wf(&self) -> bool {
        true
    }

    open spec fn rejects(&self, value: T, shrink: bool) -> Option<ErrorKind> {
        None
    }

    open spec fn candidates(&self, value: T, shrink: bool) -> nat {
        1
    }

    open spec fn max_candidates(&self) -> nat {
        1
    }

    open spec fn applies(
        &self,
        value: T,
        shrink: bool,
        index: nat,
        after: Self,
        new_value: T,
        result: Result<(), Error>,
    ) -> bool {
        &&& result is Ok
        &&& after == *self
        &&& cloned(self.value, new_value)
    }

    fn mutate(&mut self, c: &mut Candidates<'_>, value: &mut T) -> (r: Result<(), Error>) {
        let overwrite = |ctx: &mut Context<'_>, m: &mut Just<T>, v: &mut T| -> (res: Result<
            (),
            Error,
        >)
            ensures
                *final(final(ctx).lent()) == *final(old(ctx).lent()),
                res is Ok,
                *final(m) == *old(m),
                cloned(old(m).value, *final(v)),
            {
                *v = m.value.clone();
                Ok(())
            };
        c.mutation(self, value, overwrite)
    }
}

/// A mutation with [`just`] always succeeds, and leaves a clone of the given
/// value, whatever the value was and whatever the mode is; the mutator is as
/// it was, so that it goes on like this for as long as it is called.
pub proof fn lemma_just_sets<T: Clone>(
    mutator: Just<T>,
    shrink: bool,
    value: T,
    after: Just<T>,
    new_value: T,
    r: Result<(), Error>,
)
    requires
        mutated(mutator, shrink, value, after, new_value, r),
    ensures
        r is Ok,
        after == mutator,
        cloned(mutator.value, new_value),
{
}

impl<T> Generate<T> for Just<T> where T: Clone {
    open spec fn generates(&self, shrink: bool, after: Self, result: Result<T, Error>) -> bool {
        &&& after == *self
        &&& result matches Ok(value) && cloned(self.value, value)
    }

    /// Nothing is drawn to generate the value.
    fn generate(&mut self, context: &mut Context<'_>) -> (r: Result<T, Error>)
        ensures
            final(context).generator() == old(context).generator(),
    {
        Ok(self.value.clone())
    }
}

} // verus!
