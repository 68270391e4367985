//! Mutators of tuples.
//!
//! A tuple mutator holds one mutator for each field. Its candidates are
//! those of the first field's mutator for the first field, then those of
//! the second for the second, and so on: one mutation edits one field.
//!
//! The mutators of the wider tuples take their fields in groups of up to
//! four, and state what they do over the functions of those groups
//! ([`four_candidates`] and the like).

use crate::context::Candidates;
use crate::error::{Error, ErrorKind};
use crate::mutate::{edit_result, enumerated, DefaultMutate, Mutate};
use vstd::prelude::*;

verus! {

broadcast use crate::error::group_error_facts;

/// The error with which the first of two mutators that rejects its value turns
/// it down.
pub open spec fn two_rejects<M0: Mutate<T0>, T0, M1: Mutate<T1>, T1>(
    m0: M0,
    m1: M1,
    v0: T0,
    v1: T1,
    shrink: bool,
) -> Option<ErrorKind> {
    if m0.rejects(v0, shrink) is Some {
        m0.rejects(v0, shrink)
    } else {
        m1.rejects(v1, shrink)
    }
}

/// The number of candidates that two mutators have for their values.
pub open spec fn two_candidates<M0: Mutate<T0>, T0, M1: Mutate<T1>, T1>(
    m0: M0,
    m1: M1,
    v0: T0,
    v1: T1,
    shrink: bool,
) -> nat {
    m0.candidates(v0, shrink) + m1.candidates(v1, shrink)
}

/// Whether the candidate numbered `index` among those of two mutators can
/// leave the mutators as `a0` and so on and their values as `n0` and so on, with
/// `result`: it edits the one value that it belongs to.
pub open spec fn two_applies<M0: Mutate<T0>, T0, M1: Mutate<T1>, T1>(
    m0: M0,
    m1: M1,
    v0: T0,
    v1: T1,
    shrink: bool,
    index: nat,
    a0: M0,
    a1: M1,
    n0: T0,
    n1: T1,
    result: Result<(), Error>,
) -> bool {
    let end0 = m0.candidates(v0, shrink);
    if index < end0 {
        &&& m0.applies(v0, shrink, index, a0, n0, result)
        &&& a1 == m1 && n1 == v1
    } else {
        &&& m1.applies(v1, shrink, (index - end0) as nat, a1, n1, result)
        &&& a0 == m0 && n0 == v0
    }
}

/// Registers the candidates of two mutators, each for its value, in a row.
fn mutate_two<M0: Mutate<T0>, T0, M1: Mutate<T1>, T1>(
    m0: &mut M0,
    m1: &mut M1,
    c: &mut Candidates<'_>,
    v0: &mut T0,
    v1: &mut T1,
) -> (r: Result<(), Error>)
    requires
        old(m0).wf(),
        old(m1).wf(),
        old(c)@.ready(),
        old(c)@.has_room(
            old(m0).max_candidates() + old(m1).max_candidates(),
        ),
    ensures
        final(m0).wf(),
        final(m0).max_candidates() <= old(m0).max_candidates(),
        final(m1).wf(),
        final(m1).max_candidates() <= old(m1).max_candidates(),
        *final(final(c).lent()) == *final(old(c).lent()),
        r is Ok ==> two_candidates(
            *old(m0),
            *old(m1),
            *old(v0),
            *old(v1),
            old(c)@.shrink,
        ) <= (
            old(m0).max_candidates() + old(m1).max_candidates()
        ),
        enumerated(
            two_rejects(
                *old(m0),
                *old(m1),
                *old(v0),
                *old(v1),
                old(c)@.shrink,
            ),
            two_candidates(
                *old(m0),
                *old(m1),
                *old(v0),
                *old(v1),
                old(c)@.shrink,
            ),
            old(c)@,
            final(c)@,
            *final(m0) == *old(m0) && *final(v0) == *old(v0)
                && *final(m1) == *old(m1) && *final(v1) == *old(v1),
            two_applies(
                *old(m0),
                *old(m1),
                *old(v0),
                *old(v1),
                old(c)@.shrink,
                old(c)@.distance(),
                *final(m0),
                *final(m1),
                *final(v0),
                *final(v1),
                edit_result(r),
            ),
            r,
        ),
{
    m0.mutate(c, v0)?;
    m1.mutate(c, v1)?;
    Ok(())
}

/// The error with which the first of three mutators that rejects its value turns
/// it down.
pub open spec fn three_rejects<M0: Mutate<T0>, T0, M1: Mutate<T1>, T1, M2: Mutate<T2>, T2>(
    m0: M0,
    m1: M1,
    m2: M2,
    v0: T0,
    v1: T1,
    v2: T2,
    shrink: bool,
) -> Option<ErrorKind> {
    if m0.rejects(v0, shrink) is Some {
        m0.rejects(v0, shrink)
    } else if m1.rejects(v1, shrink) is Some {
        m1.rejects(v1, shrink)
    } else {
        m2.rejects(v2, shrink)
    }
}

/// The number of candidates that three mutators have for their values.
pub open spec fn three_candidates<M0: Mutate<T0>, T0, M1: Mutate<T1>, T1, M2: Mutate<T2>, T2>(
    m0: M0,
    m1: M1,
    m2: M2,
    v0: T0,
    v1: T1,
    v2: T2,
    shrink: bool,
) -> nat {
    m0.candidates(v0, shrink) + m1.candidates(v1, shrink) + m2.candidates(v2, shrink)
}

/// Whether the candidate numbered `index` among those of three mutators can
/// leave the mutators as `a0` and so on and their values as `n0` and so on, with
/// `result`: it edits the one value that it belongs to.
pub open spec fn three_applies<M0: Mutate<T0>, T0, M1: Mutate<T1>, T1, M2: Mutate<T2>, T2>(
    m0: M0,
    m1: M1,
    m2: M2,
    v0: T0,
    v1: T1,
    v2: T2,
    shrink: bool,
    index: nat,
    a0: M0,
    a1: M1,
    a2: M2,
    n0: T0,
    n1: T1,
    n2: T2,
    result: Result<(), Error>,
) -> bool {
    let end0 = m0.candidates(v0, shrink);
    let end1 = end0 + m1.candidates(v1, shrink);
    if index < end0 {
        &&& m0.applies(v0, shrink, index, a0, n0, result)
        &&& a1 == m1 && n1 == v1
        &&& a2 == m2 && n2 == v2
    } else if index < end1 {
        &&& m1.applies(v1, shrink, (index - end0) as nat, a1, n1, result)
        &&& a0 == m0 && n0 == v0
        &&& a2 == m2 && n2 == v2
    } else {
        &&& m2.applies(v2, shrink, (index - end1) as nat, a2, n2, result)
        &&& a0 == m0 && n0 == v0
        &&& a1 == m1 && n1 == v1
    }
}

/// Registers the candidates of three mutators, each for its value, in a row.
fn mutate_three<M0: Mutate<T0>, T0, M1: Mutate<T1>, T1, M2: Mutate<T2>, T2>(
    m0: &mut M0,
    m1: &mut M1,
    m2: &mut M2,
    c: &mut Candidates<'_>,
    v0: &mut T0,
    v1: &mut T1,
    v2: &mut T2,
) -> (r: Result<(), Error>)
    requires
        old(m0).wf(),
        old(m1).wf(),
        old(m2).wf(),
        old(c)@.ready(),
        old(c)@.has_room(
            old(m0).max_candidates() + old(m1).max_candidates() + old(m2).max_candidates(),
        ),
    ensures
        final(m0).wf(),
        final(m0).max_candidates() <= old(m0).max_candidates(),
        final(m1).wf(),
        final(m1).max_candidates() <= old(m1).max_candidates(),
        final(m2).wf(),
        final(m2).max_candidates() <= old(m2).max_candidates(),
        *final(final(c).lent()) == *final(old(c).lent()),
        r is Ok ==> three_candidates(
            *old(m0),
            *old(m1),
            *old(m2),
            *old(v0),
            *old(v1),
            *old(v2),
            old(c)@.shrink,
        ) <= (
            old(m0).max_candidates() + old(m1).max_candidates() + old(m2).max_candidates()
        ),
        enumerated(
            three_rejects(
                *old(m0),
                *old(m1),
                *old(m2),
                *old(v0),
                *old(v1),
                *old(v2),
                old(c)@.shrink,
            ),
            three_candidates(
                *old(m0),
                *old(m1),
                *old(m2),
                *old(v0),
                *old(v1),
                *old(v2),
                old(c)@.shrink,
            ),
            old(c)@,
            final(c)@,
            *final(m0) == *old(m0) && *final(v0) == *old(v0)
                && *final(m1) == *old(m1) && *final(v1) == *old(v1)
                && *final(m2) == *old(m2) && *final(v2) == *old(v2),
            three_applies(
                *old(m0),
                *old(m1),
                *old(m2),
                *old(v0),
                *old(v1),
                *old(v2),
                old(c)@.shrink,
                old(c)@.distance(),
                *final(m0),
                *final(m1),
                *final(m2),
                *final(v0),
                *final(v1),
                *final(v2),
                edit_result(r),
            ),
            r,
        ),
{
    m0.mutate(c, v0)?;
    m1.mutate(c, v1)?;
    m2.mutate(c, v2)?;
    Ok(())
}

/// The error with which the first of four mutators that rejects its value turns
/// it down.
pub open spec fn four_rejects<
    M0: Mutate<T0>, T0,
    M1: Mutate<T1>, T1,
    M2: Mutate<T2>, T2,
    M3: Mutate<T3>, T3,
>(
    m0: M0,
    m1: M1,
    m2: M2,
    m3: M3,
    v0: T0,
    v1: T1,
    v2: T2,
    v3: T3,
    shrink: bool,
) -> Option<ErrorKind> {
    if m0.rejects(v0, shrink) is Some {
        m0.rejects(v0, shrink)
    } else if m1.rejects(v1, shrink) is Some {
        m1.rejects(v1, shrink)
    } else if m2.rejects(v2, shrink) is Some {
        m2.rejects(v2, shrink)
    } else {
        m3.rejects(v3, shrink)
    }
}

/// The number of candidates that four mutators have for their values.
pub open spec fn four_candidates<
    M0: Mutate<T0>, T0,
    M1: Mutate<T1>, T1,
    M2: Mutate<T2>, T2,
    M3: Mutate<T3>, T3,
>(
    m0: M0,
    m1: M1,
    m2: M2,
    m3: M3,
    v0: T0,
    v1: T1,
    v2: T2,
    v3: T3,
    shrink: bool,
) -> nat {
    m0.candidates(v0, shrink) + m1.candidates(v1, shrink) + m2.candidates(v2, shrink)
        + m3.candidates(v3, shrink)
}

/// Whether the candidate numbered `index` among those of four mutators can
/// leave the mutators as `a0` and so on and their values as `n0` and so on, with
/// `result`: it edits the one value that it belongs to.
pub open spec fn four_applies<
    M0: Mutate<T0>, T0,
    M1: Mutate<T1>, T1,
    M2: Mutate<T2>, T2,
    M3: Mutate<T3>, T3,
>(
    m0: M0,
    m1: M1,
    m2: M2,
    m3: M3,
    v0: T0,
    v1: T1,
    v2: T2,
    v3: T3,
    shrink: bool,
    index: nat,
    a0: M0,
    a1: M1,
    a2: M2,
    a3: M3,
    n0: T0,
    n1: T1,
    n2: T2,
    n3: T3,
    result: Result<(), Error>,
) -> bool {
    let end0 = m0.candidates(v0, shrink);
    let end1 = end0 + m1.candidates(v1, shrink);
    let end2 = end1 + m2.candidates(v2, shrink);
    if index < end0 {
        &&& m0.applies(v0, shrink, index, a0, n0, result)
        &&& a1 == m1 && n1 == v1
        &&& a2 == m2 && n2 == v2
        &&& a3 == m3 && n3 == v3
    } else if index < end1 {
        &&& m1.applies(v1, shrink, (index - end0) as nat, a1, n1, result)
        &&& a0 == m0 && n0 == v0
        &&& a2 == m2 && n2 == v2
        &&& a3 == m3 && n3 == v3
    } else if index < end2 {
        &&& m2.applies(v2, shrink, (index - end1) as nat, a2, n2, result)
        &&& a0 == m0 && n0 == v0
        &&& a1 == m1 && n1 == v1
        &&& a3 == m3 && n3 == v3
    } else {
        &&& m3.applies(v3, shrink, (index - end2) as nat, a3, n3, result)
        &&& a0 == m0 && n0 == v0
        &&& a1 == m1 && n1 == v1
        &&& a2 == m2 && n2 == v2
    }
}

/// Registers the candidates of four mutators, each for its value, in a row.
fn mutate_four<M0: Mutate<T0>, T0, M1: Mutate<T1>, T1, M2: Mutate<T2>, T2, M3: Mutate<T3>, T3>(
    m0: &mut M0,
    m1: &mut M1,
    m2: &mut M2,
    m3: &mut M3,
    c: &mut Candidates<'_>,
    v0: &mut T0,
    v1: &mut T1,
    v2: &mut T2,
    v3: &mut T3,
) -> (r: Result<(), Error>)
    requires
        old(m0).wf(),
        old(m1).wf(),
        old(m2).wf(),
        old(m3).wf(),
        old(c)@.ready(),
        old(c)@.has_room(
            old(m0).max_candidates() + old(m1).max_candidates() + old(m2).max_candidates()
                + old(m3).max_candidates(),
        ),
    ensures
        final(m0).wf(),
        final(m0).max_candidates() <= old(m0).max_candidates(),
        final(m1).wf(),
        final(m1).max_candidates() <= old(m1).max_candidates(),
        final(m2).wf(),
        final(m2).max_candidates() <= old(m2).max_candidates(),
        final(m3).wf(),
        final(m3).max_candidates() <= old(m3).max_candidates(),
        *final(final(c).lent()) == *final(old(c).lent()),
        r is Ok ==> four_candidates(
            *old(m0),
            *old(m1),
            *old(m2),
            *old(m3),
            *old(v0),
            *old(v1),
            *old(v2),
            *old(v3),
            old(c)@.shrink,
        ) <= (
            old(m0).max_candidates() + old(m1).max_candidates() + old(m2).max_candidates()
                + old(m3).max_candidates()
        ),
        enumerated(
            four_rejects(
                *old(m0),
                *old(m1),
                *old(m2),
                *old(m3),
                *old(v0),
                *old(v1),
                *old(v2),
                *old(v3),
                old(c)@.shrink,
            ),
            four_candidates(
                *old(m0),
                *old(m1),
                *old(m2),
                *old(m3),
                *old(v0),
                *old(v1),
                *old(v2),
                *old(v3),
                old(c)@.shrink,
            ),
            old(c)@,
            final(c)@,
            *final(m0) == *old(m0) && *final(v0) == *old(v0)
                && *final(m1) == *old(m1) && *final(v1) == *old(v1)
                && *final(m2) == *old(m2) && *final(v2) == *old(v2)
                && *final(m3) == *old(m3) && *final(v3) == *old(v3),
            four_applies(
                *old(m0),
                *old(m1),
                *old(m2),
                *old(m3),
                *old(v0),
                *old(v1),
                *old(v2),
                *old(v3),
                old(c)@.shrink,
                old(c)@.distance(),
                *final(m0),
                *final(m1),
                *final(m2),
                *final(m3),
                *final(v0),
                *final(v1),
                *final(v2),
                *final(v3),
                edit_result(r),
            ),
            r,
        ),
{
    m0.mutate(c, v0)?;
    m1.mutate(c, v1)?;
    m2.mutate(c, v2)?;
    m3.mutate(c, v3)?;
    Ok(())
}

/// A mutator for tuples of one element.
#[derive(Clone, Debug)]
pub struct Tuple1<M0> {
    pub m0: M0,
}

/// A mutator for tuples of one element, built on a mutator for each.
pub fn tuple1<M0>(m0: M0) -> (m: Tuple1<M0>)
    ensures
        m.m0 == m0,
{
    Tuple1 { m0 }
}

impl<M0, T0> Mutate<(T0,)> for Tuple1<M0> where M0: Mutate<T0> {
    open spec fn wf(&self) -> bool {
        &&& self.m0.wf()
        &&& self.max_candidates() <= u32::MAX
    }

    open spec fn rejects(&self, value: (T0,), shrink: bool) -> Option<ErrorKind> {
        self.m0.rejects(value.0, shrink)
    }

    open spec fn candidates(&self, value: (T0,), shrink: bool) -> nat {
        self.m0.candidates(value.0, shrink)
    }

    open spec fn max_candidates(&self) -> nat {
        self.m0.max_candidates()
    }

    open spec fn applies(
        &self,
        value: (T0,),
        shrink: bool,
        index: nat,
        after: Self,
        new_value: (T0,),
        result: Result<(), Error>,
    ) -> bool {
        &&& self.m0.applies(value.0, shrink, index, after.m0, new_value.0, result)
    }

    fn mutate(&mut self, c: &mut Candidates<'_>, value: &mut (T0,)) -> (r: Result<(), Error>) {
        self.m0.mutate(c, &mut value.0)?;
        Ok(())
    }
}

impl<T0: DefaultMutate> DefaultMutate for (T0,) {
    type DefaultMutate = Tuple1<T0::DefaultMutate>;
}

impl<M0: Default> Default for Tuple1<M0> {
    fn default() -> (m: Self)
        ensures
            call_ensures(M0::default, (), m.m0),
    {
        Tuple1 { m0: M0::default() }
    }
}

/// A mutator for tuples of two elements.
#[derive(Clone, Debug)]
pub struct Tuple2<M0, M1> {
    pub m0: M0,
    pub m1: M1,
}

/// A mutator for tuples of two elements, built on a mutator for each.
pub fn tuple2<M0, M1>(m0: M0, m1: M1) -> (m: Tuple2<M0, M1>)
    ensures
        m.m0 == m0,
        m.m1 == m1,
{
    Tuple2 { m0, m1 }
}

impl<M0, T0, M1, T1> Mutate<(T0, T1)> for Tuple2<M0, M1> where M0: Mutate<T0>, M1: Mutate<T1> {
    open spec fn wf(&self) -> bool {
        &&& self.m0.wf()
        &&& self.m1.wf()
        &&& self.max_candidates() <= u32::MAX
    }

    open spec fn rejects(&self, value: (T0, T1), shrink: bool) -> Option<ErrorKind> {
        if self.m0.rejects(value.0, shrink) is Some {
            self.m0.rejects(value.0, shrink)
        } else {
            self.m1.rejects(value.1, shrink)
        }
    }

    open spec fn candidates(&self, value: (T0, T1), shrink: bool) -> nat {
        self.m0.candidates(value.0, shrink) + self.m1.candidates(value.1, shrink)
    }

    open spec fn max_candidates(&self) -> nat {
        self.m0.max_candidates() + self.m1.max_candidates()
    }

    open spec fn applies(
        &self,
        value: (T0, T1),
        shrink: bool,
        index: nat,
        after: Self,
        new_value: (T0, T1),
        result: Result<(), Error>,
    ) -> bool {
        let end0 = self.m0.candidates(value.0, shrink);
        if index < end0 {
            &&& self.m0.applies(value.0, shrink, index, after.m0, new_value.0, result)
            &&& after.m1 == self.m1 && new_value.1 == value.1
        } else {
            &&& self.m1.applies(
                value.1,
                shrink,
                (index - end0) as nat,
                after.m1,
                new_value.1,
                result,
            )
            &&& after.m0 == self.m0 && new_value.0 == value.0
        }
    }

    fn mutate(&mut self, c: &mut Candidates<'_>, value: &mut (T0, T1)) -> (r: Result<(), Error>) {
        self.m0.mutate(c, &mut value.0)?;
        self.m1.mutate(c, &mut value.1)?;
        Ok(())
    }
}

impl<T0: DefaultMutate, T1: DefaultMutate> DefaultMutate for (T0, T1) {
    type DefaultMutate = Tuple2<T0::DefaultMutate, T1::DefaultMutate>;
}

impl<M0: Default, M1: Default> Default for Tuple2<M0, M1> {
    fn default() -> (m: Self)
        ensures
            call_ensures(M0::default, (), m.m0),
            call_ensures(M1::default, (), m.m1),
    {
        Tuple2 { m0: M0::default(), m1: M1::default() }
    }
}

/// A mutator for tuples of three elements.
#[derive(Clone, Debug)]
pub struct Tuple3<M0, M1, M2> {
    pub m0: M0,
    pub m1: M1,
    pub m2: M2,
}

/// A mutator for tuples of three elements, built on a mutator for each.
pub fn tuple3<M0, M1, M2>(m0: M0, m1: M1, m2: M2) -> (m: Tuple3<M0, M1, M2>)
    ensures
        m.m0 == m0,
        m.m1 == m1,
        m.m2 == m2,
{
    Tuple3 { m0, m1, m2 }
}

impl<M0, T0, M1, T1, M2, T2> Mutate<(T0, T1, T2)> for Tuple3<M0, M1, M2> where
    M0: Mutate<T0>,
    M1: Mutate<T1>,
    M2: Mutate<T2>,
 {
    open spec fn wf(&self) -> bool {
        &&& self.m0.wf()
        &&& self.m1.wf()
        &&& self.m2.wf()
        &&& self.max_candidates() <= u32::MAX
    }

    open spec fn rejects(&self, value: (T0, T1, T2), shrink: bool) -> Option<ErrorKind> {
        if self.m0.rejects(value.0, shrink) is Some {
            self.m0.rejects(value.0, shrink)
        } else if self.m1.rejects(value.1, shrink) is Some {
            self.m1.rejects(value.1, shrink)
        } else {
            self.m2.rejects(value.2, shrink)
        }
    }

    open spec fn candidates(&self, value: (T0, T1, T2), shrink: bool) -> nat {
        self.m0.candidates(value.0, shrink) + self.m1.candidates(value.1, shrink)
            + self.m2.candidates(value.2, shrink)
    }

    open spec fn max_candidates(&self) -> nat {
        self.m0.max_candidates() + self.m1.max_candidates() + self.m2.max_candidates()
    }

    open spec fn applies(
        &self,
        value: (T0, T1, T2),
        shrink: bool,
        index: nat,
        after: Self,
        new_value: (T0, T1, T2),
        result: Result<(), Error>,
    ) -> bool {
        let end0 = self.m0.candidates(value.0, shrink);
        let end1 = end0 + self.m1.candidates(value.1, shrink);
        if index < end0 {
            &&& self.m0.applies(value.0, shrink, index, after.m0, new_value.0, result)
            &&& after.m1 == self.m1 && new_value.1 == value.1
            &&& after.m2 == self.m2 && new_value.2 == value.2
        } else if index < end1 {
            &&& self.m1.applies(
                value.1,
                shrink,
                (index - end0) as nat,
                after.m1,
                new_value.1,
                result,
            )
            &&& after.m0 == self.m0 && new_value.0 == value.0
            &&& after.m2 == self.m2 && new_value.2 == value.2
        } else {
            &&& self.m2.applies(
                value.2,
                shrink,
                (index - end1) as nat,
                after.m2,
                new_value.2,
                result,
            )
            &&& after.m0 == self.m0 && new_value.0 == value.0
            &&& after.m1 == self.m1 && new_value.1 == value.1
        }
    }

    fn mutate(
        &mut self,
        c: &mut Candidates<'_>,
        value: &mut (T0, T1, T2),
    ) -> (r: Result<(), Error>) {
        self.m0.mutate(c, &mut value.0)?;
        self.m1.mutate(c, &mut value.1)?;
        self.m2.mutate(c, &mut value.2)?;
        Ok(())
    }
}

impl<T0: DefaultMutate, T1: DefaultMutate, T2: DefaultMutate> DefaultMutate for (T0, T1, T2) {
    type DefaultMutate = Tuple3<T0::DefaultMutate, T1::DefaultMutate, T2::DefaultMutate>;
}

impl<M0: Default, M1: Default, M2: Default> Default for Tuple3<M0, M1, M2> {
    fn default() -> (m: Self)
        ensures
            call_ensures(M0::default, (), m.m0),
            call_ensures(M1::default, (), m.m1),
            call_ensures(M2::default, (), m.m2),
    {
        Tuple3 { m0: M0::default(), m1: M1::default(), m2: M2::default() }
    }
}

/// A mutator for tuples of four elements.
#[derive(Clone, Debug)]
pub struct Tuple4<M0, M1, M2, M3> {
    pub m0: M0,
    pub m1: M1,
    pub m2: M2,
    pub m3: M3,
}

/// A mutator for tuples of four elements, built on a mutator for each.
pub fn tuple4<M0, M1, M2, M3>(m0: M0, m1: M1, m2: M2, m3: M3) -> (m: Tuple4<M0, M1, M2, M3>)
    ensures
        m.m0 == m0,
        m.m1 == m1,
        m.m2 == m2,
        m.m3 == m3,
{
    Tuple4 { m0, m1, m2, m3 }
}

impl<M0, T0, M1, T1, M2, T2, M3, T3> Mutate<(T0, T1, T2, T3)> for Tuple4<M0, M1, M2, M3> where
    M0: Mutate<T0>,
    M1: Mutate<T1>,
    M2: Mutate<T2>,
    M3: Mutate<T3>,
 {
    open spec fn wf(&self) -> bool {
        &&& self.m0.wf()
        &&& self.m1.wf()
        &&& self.m2.wf()
        &&& self.m3.wf()
        &&& self.max_candidates() <= u32::MAX
    }

    open spec fn rejects(&self, value: (T0, T1, T2, T3), shrink: bool) -> Option<ErrorKind> {
        if self.m0.rejects(value.0, shrink) is Some {
            self.m0.rejects(value.0, shrink)
        } else if self.m1.rejects(value.1, shrink) is Some {
            self.m1.rejects(value.1, shrink)
        } else if self.m2.rejects(value.2, shrink) is Some {
            self.m2.rejects(value.2, shrink)
        } else {
            self.m3.rejects(value.3, shrink)
        }
    }

    open spec fn candidates(&self, value: (T0, T1, T2, T3), shrink: bool) -> nat {
        self.m0.candidates(value.0, shrink) + self.m1.candidates(value.1, shrink)
            + self.m2.candidates(value.2, shrink) + self.m3.candidates(value.3, shrink)
    }

    open spec fn max_candidates(&self) -> nat {
        self.m0.max_candidates() + self.m1.max_candidates() + self.m2.max_candidates()
            + self.m3.max_candidates()
    }

    open spec fn applies(
        &self,
        value: (T0, T1, T2, T3),
        shrink: bool,
        index: nat,
        after: Self,
        new_value: (T0, T1, T2, T3),
        result: Result<(), Error>,
    ) -> bool {
        let end0 = self.m0.candidates(value.0, shrink);
        let end1 = end0 + self.m1.candidates(value.1, shrink);
        let end2 = end1 + self.m2.candidates(value.2, shrink);
        if index < end0 {
            &&& self.m0.applies(value.0, shrink, index, after.m0, new_value.0, result)
            &&& after.m1 == self.m1 && new_value.1 == value.1
            &&& after.m2 == self.m2 && new_value.2 == value.2
            &&& after.m3 == self.m3 && new_value.3 == value.3
        } else if index < end1 {
            &&& self.m1.applies(
                value.1,
                shrink,
                (index - end0) as nat,
                after.m1,
                new_value.1,
                result,
            )
            &&& after.m0 == self.m0 && new_value.0 == value.0
            &&& after.m2 == self.m2 && new_value.2 == value.2
            &&& after.m3 == self.m3 && new_value.3 == value.3
        } else if index < end2 {
            &&& self.m2.applies(
                value.2,
                shrink,
                (index - end1) as nat,
                after.m2,
                new_value.2,
                result,
            )
            &&& after.m0 == self.m0 && new_value.0 == value.0
            &&& after.m1 == self.m1 && new_value.1 == value.1
            &&& after.m3 == self.m3 && new_value.3 == value.3
        } else {
            &&& self.m3.applies(
                value.3,
                shrink,
                (index - end2) as nat,
                after.m3,
                new_value.3,
                result,
            )
            &&& after.m0 == self.m0 && new_value.0 == value.0
            &&& after.m1 == self.m1 && new_value.1 == value.1
            &&& after.m2 == self.m2 && new_value.2 == value.2
        }
    }

    fn mutate(
        &mut self,
        c: &mut Candidates<'_>,
        value: &mut (T0, T1, T2, T3),
    ) -> (r: Result<(), Error>) {
        self.m0.mutate(c, &mut value.0)?;
        self.m1.mutate(c, &mut value.1)?;
        self.m2.mutate(c, &mut value.2)?;
        self.m3.mutate(c, &mut value.3)?;
        Ok(())
    }
}

impl<T0: DefaultMutate, T1: DefaultMutate, T2: DefaultMutate, T3: DefaultMutate> DefaultMutate for
    (T0, T1, T2, T3) {
    type DefaultMutate = Tuple4<
        T0::DefaultMutate,
        T1::DefaultMutate,
        T2::DefaultMutate,
        T3::DefaultMutate,
    >;
}

impl<M0: Default, M1: Default, M2: Default, M3: Default> Default for Tuple4<M0, M1, M2, M3> {
    fn default() -> (m: Self)
        ensures
            call_ensures(M0::default, (), m.m0),
            call_ensures(M1::default, (), m.m1),
            call_ensures(M2::default, (), m.m2),
            call_ensures(M3::default, (), m.m3),
    {
        Tuple4 { m0: M0::default(), m1: M1::default(), m2: M2::default(), m3: M3::default() }
    }
}

/// A mutator for tuples of five elements.
#[derive(Clone, Debug)]
pub struct Tuple5<M0, M1, M2, M3, M4> {
    pub m0: M0,
    pub m1: M1,
    pub m2: M2,
    pub m3: M3,
    pub m4: M4,
}

/// A mutator for tuples of five elements, built on a mutator for each.
pub fn tuple5<M0, M1, M2, M3, M4>(
    m0: M0,
    m1: M1,
    m2: M2,
    m3: M3,
    m4: M4,
) -> (m: Tuple5<M0, M1, M2, M3, M4>)
    ensures
        m.m0 == m0,
        m.m1 == m1,
        m.m2 == m2,
        m.m3 == m3,
        m.m4 == m4,
{
    Tuple5 { m0, m1, m2, m3, m4 }
}

impl<
    M0, T0,
    M1, T1,
    M2, T2,
    M3, T3,
    M4, T4,
> Mutate<
    (T0, T1, T2, T3, T4),
> for Tuple5<M0, M1, M2, M3, M4> where
    M0: Mutate<T0>,
    M1: Mutate<T1>,
    M2: Mutate<T2>,
    M3: Mutate<T3>,
    M4: Mutate<T4>,
 {
    open spec fn wf(&self) -> bool {
        &&& self.m0.wf()
        &&& self.m1.wf()
        &&& self.m2.wf()
        &&& self.m3.wf()
        &&& self.m4.wf()
        &&& self.max_candidates() <= u32::MAX
    }

    open spec fn rejects(&self, value: (T0, T1, T2, T3, T4), shrink: bool) -> Option<ErrorKind> {
        let group0 = four_rejects(
            self.m0,
            self.m1,
            self.m2,
            self.m3,
            value.0,
            value.1,
            value.2,
            value.3,
            shrink,
        );
        if group0 is Some {
            group0
        } else {
            self.m4.rejects(value.4, shrink)
        }
    }

    open spec fn candidates(&self, value: (T0, T1, T2, T3, T4), shrink: bool) -> nat {
        let group0 = four_candidates(
            self.m0,
            self.m1,
            self.m2,
            self.m3,
            value.0,
            value.1,
            value.2,
            value.3,
            shrink,
        );
        group0 + self.m4.candidates(value.4, shrink)
    }

    open spec fn max_candidates(&self) -> nat {
        self.m0.max_candidates() + self.m1.max_candidates() + self.m2.max_candidates()
            + self.m3.max_candidates() + self.m4.max_candidates()
    }

    open spec fn applies(
        &self,
        value: (T0, T1, T2, T3, T4),
        shrink: bool,
        index: nat,
        after: Self,
        new_value: (T0, T1, T2, T3, T4),
        result: Result<(), Error>,
    ) -> bool {
        let end0 = four_candidates(
            self.m0,
            self.m1,
            self.m2,
            self.m3,
            value.0,
            value.1,
            value.2,
            value.3,
            shrink,
        );
        if index < end0 {
            &&& four_applies(
                self.m0,
                self.m1,
                self.m2,
                self.m3,
                value.0,
                value.1,
                value.2,
                value.3,
                shrink,
                index,
                after.m0,
                after.m1,
                after.m2,
                after.m3,
                new_value.0,
                new_value.1,
                new_value.2,
                new_value.3,
                result,
            )
            &&& after.m4 == self.m4 && new_value.4 == value.4
        } else {
            &&& self.m4.applies(
                value.4,
                shrink,
                (index - end0) as nat,
                after.m4,
                new_value.4,
                result,
            )
            &&& after.m0 == self.m0 && new_value.0 == value.0
            &&& after.m1 == self.m1 && new_value.1 == value.1
            &&& after.m2 == self.m2 && new_value.2 == value.2
            &&& after.m3 == self.m3 && new_value.3 == value.3
        }
    }

    fn mutate(
        &mut self,
        c: &mut Candidates<'_>,
        value: &mut (T0, T1, T2, T3, T4),
    ) -> (r: Result<(), Error>) {
        mutate_four(
            &mut self.m0,
            &mut self.m1,
            &mut self.m2,
            &mut self.m3,
            c,
            &mut value.0,
            &mut value.1,
            &mut value.2,
            &mut value.3,
        )?;
        self.m4.mutate(c, &mut value.4)?;
        Ok(())
    }
}

impl<
    T0: DefaultMutate,
    T1: DefaultMutate,
    T2: DefaultMutate,
    T3: DefaultMutate,
    T4: DefaultMutate,
> DefaultMutate for (T0, T1, T2, T3, T4) {
    type DefaultMutate = Tuple5<
        T0::DefaultMutate,
        T1::DefaultMutate,
        T2::DefaultMutate,
        T3::DefaultMutate,
        T4::DefaultMutate,
    >;
}

impl<M0: Default, M1: Default, M2: Default, M3: Default, M4: Default> Default for Tuple5<
    M0,
    M1,
    M2,
    M3,
    M4,
> {
    fn default() -> (m: Self)
        ensures
            call_ensures(M0::default, (), m.m0),
            call_ensures(M1::default, (), m.m1),
            call_ensures(M2::default, (), m.m2),
            call_ensures(M3::default, (), m.m3),
            call_ensures(M4::default, (), m.m4),
    {
        Tuple5 { 
            m0: M0::default(),
            m1: M1::default(),
            m2: M2::default(),
            m3: M3::default(),
            m4: M4::default(),
        }
    }
}

/// A mutator for tuples of six elements.
#[derive(Clone, Debug)]
pub struct Tuple6<M0, M1, M2, M3, M4, M5> {
    pub m0: M0,
    pub m1: M1,
    pub m2: M2,
    pub m3: M3,
    pub m4: M4,
    pub m5: M5,
}

/// A mutator for tuples of six elements, built on a mutator for each.
pub fn tuple6<M0, M1, M2, M3, M4, M5>(
    m0: M0,
    m1: M1,
    m2: M2,
    m3: M3,
    m4: M4,
    m5: M5,
) -> (m: Tuple6<M0, M1, M2, M3, M4, M5>)
    ensures
        m.m0 == m0,
        m.m1 == m1,
        m.m2 == m2,
        m.m3 == m3,
        m.m4 == m4,
        m.m5 == m5,
{
    Tuple6 { m0, m1, m2, m3, m4, m5 }
}

impl<
    M0, T0,
    M1, T1,
    M2, T2,
    M3, T3,
    M4, T4,
    M5, T5,
> Mutate<
    (T0, T1, T2, T3, T4, T5),
> for Tuple6<M0, M1, M2, M3, M4, M5> where
    M0: Mutate<T0>,
    M1: Mutate<T1>,
    M2: Mutate<T2>,
    M3: Mutate<T3>,
    M4: Mutate<T4>,
    M5: Mutate<T5>,
 {
    open spec fn wf(&self) -> bool {
        &&& self.m0.wf()
        &&& self.m1.wf()
        &&& self.m2.wf()
        &&& self.m3.wf()
        &&& self.m4.wf()
        &&& self.m5.wf()
        &&& self.max_candidates() <= u32::MAX
    }

    open spec fn rejects(
        &self,
        value: (T0, T1, T2, T3, T4, T5),
        shrink: bool,
    ) -> Option<ErrorKind> {
        let group0 = four_rejects(
            self.m0,
            self.m1,
            self.m2,
            self.m3,
            value.0,
            value.1,
            value.2,
            value.3,
            shrink,
        );
        if group0 is Some {
            group0
        } else {
            two_rejects(self.m4, self.m5, value.4, value.5, shrink)
        }
    }

    open spec fn candidates(&self, value: (T0, T1, T2, T3, T4, T5), shrink: bool) -> nat {
        let group0 = four_candidates(
            self.m0,
            self.m1,
            self.m2,
            self.m3,
            value.0,
            value.1,
            value.2,
            value.3,
            shrink,
        );
        let group1 = two_candidates(self.m4, self.m5, value.4, value.5, shrink);
        group0 + group1
    }

    open spec fn max_candidates(&self) -> nat {
        self.m0.max_candidates() + self.m1.max_candidates() + self.m2.max_candidates()
            + self.m3.max_candidates() + self.m4.max_candidates() + self.m5.max_candidates()
    }

    open spec fn applies(
        &self,
        value: (T0, T1, T2, T3, T4, T5),
        shrink: bool,
        index: nat,
        after: Self,
        new_value: (T0, T1, T2, T3, T4, T5),
        result: Result<(), Error>,
    ) -> bool {
        let end0 = four_candidates(
            self.m0,
            self.m1,
            self.m2,
            self.m3,
            value.0,
            value.1,
            value.2,
            value.3,
            shrink,
        );
        if index < end0 {
            &&& four_applies(
                self.m0,
                self.m1,
                self.m2,
                self.m3,
                value.0,
                value.1,
                value.2,
                value.3,
                shrink,
                index,
                after.m0,
                after.m1,
                after.m2,
                after.m3,
                new_value.0,
                new_value.1,
                new_value.2,
                new_value.3,
                result,
            )
            &&& after.m4 == self.m4 && new_value.4 == value.4
            &&& after.m5 == self.m5 && new_value.5 == value.5
        } else {
            &&& two_applies(
                self.m4,
                self.m5,
                value.4,
                value.5,
                shrink,
                (index - end0) as nat,
                after.m4,
                after.m5,
                new_value.4,
                new_value.5,
                result,
            )
            &&& after.m0 == self.m0 && new_value.0 == value.0
            &&& after.m1 == self.m1 && new_value.1 == value.1
            &&& after.m2 == self.m2 && new_value.2 == value.2
            &&& after.m3 == self.m3 && new_value.3 == value.3
        }
    }

    fn mutate(
        &mut self,
        c: &mut Candidates<'_>,
        value: &mut (T0, T1, T2, T3, T4, T5),
    ) -> (r: Result<(), Error>) {
        mutate_four(
            &mut self.m0,
            &mut self.m1,
            &mut self.m2,
            &mut self.m3,
            c,
            &mut value.0,
            &mut value.1,
            &mut value.2,
            &mut value.3,
        )?;
        mutate_two(&mut self.m4, &mut self.m5, c, &mut value.4, &mut value.5)?;
        Ok(())
    }
}

impl<
    T0: DefaultMutate,
    T1: DefaultMutate,
    T2: DefaultMutate,
    T3: DefaultMutate,
    T4: DefaultMutate,
    T5: DefaultMutate,
> DefaultMutate for (T0, T1, T2, T3, T4, T5) {
    type DefaultMutate = Tuple6<
        T0::DefaultMutate,
        T1::DefaultMutate,
        T2::DefaultMutate,
        T3::DefaultMutate,
        T4::DefaultMutate,
        T5::DefaultMutate,
    >;
}

impl<
    M0: Default,
    M1: Default,
    M2: Default,
    M3: Default,
    M4: Default,
    M5: Default,
> Default for Tuple6<M0, M1, M2, M3, M4, M5> {
    fn default() -> (m: Self)
        ensures
            call_ensures(M0::default, (), m.m0),
            call_ensures(M1::default, (), m.m1),
            call_ensures(M2::default, (), m.m2),
            call_ensures(M3::default, (), m.m3),
            call_ensures(M4::default, (), m.m4),
            call_ensures(M5::default, (), m.m5),
    {
        Tuple6 { 
            m0: M0::default(),
            m1: M1::default(),
            m2: M2::default(),
            m3: M3::default(),
            m4: M4::default(),
            m5: M5::default(),
        }
    }
}

/// A mutator for tuples of seven elements.
#[derive(Clone, Debug)]
pub struct Tuple7<M0, M1, M2, M3, M4, M5, M6> {
    pub m0: M0,
    pub m1: M1,
    pub m2: M2,
    pub m3: M3,
    pub m4: M4,
    pub m5: M5,
    pub m6: M6,
}

/// A mutator for tuples of seven elements, built on a mutator for each.
pub fn tuple7<M0, M1, M2, M3, M4, M5, M6>(
    m0: M0,
    m1: M1,
    m2: M2,
    m3: M3,
    m4: M4,
    m5: M5,
    m6: M6,
) -> (m: Tuple7<M0, M1, M2, M3, M4, M5, M6>)
    ensures
        m.m0 == m0,
        m.m1 == m1,
        m.m2 == m2,
        m.m3 == m3,
        m.m4 == m4,
        m.m5 == m5,
        m.m6 == m6,
{
    Tuple7 { m0, m1, m2, m3, m4, m5, m6 }
}

impl<
    M0, T0,
    M1, T1,
    M2, T2,
    M3, T3,
    M4, T4,
    M5, T5,
    M6, T6,
> Mutate<
    (T0, T1, T2, T3, T4, T5, T6),
> for Tuple7<M0, M1, M2, M3, M4, M5, M6> where
    M0: Mutate<T0>,
    M1: Mutate<T1>,
    M2: Mutate<T2>,
    M3: Mutate<T3>,
    M4: Mutate<T4>,
    M5: Mutate<T5>,
    M6: Mutate<T6>,
 {
    open spec fn wf(&self) -> bool {
        &&& self.m0.wf()
        &&& self.m1.wf()
        &&& self.m2.wf()
        &&& self.m3.wf()
        &&& self.m4.wf()
        &&& self.m5.wf()
        &&& self.m6.wf()
        &&& self.max_candidates() <= u32::MAX
    }

    open spec fn rejects(
        &self,
        value: (T0, T1, T2, T3, T4, T5, T6),
        shrink: bool,
    ) -> Option<ErrorKind> {
        let group0 = four_rejects(
            self.m0,
            self.m1,
            self.m2,
            self.m3,
            value.0,
            value.1,
            value.2,
            value.3,
            shrink,
        );
        if group0 is Some {
            group0
        } else {
            three_rejects(self.m4, self.m5, self.m6, value.4, value.5, value.6, shrink)
        }
    }

    open spec fn candidates(&self, value: (T0, T1, T2, T3, T4, T5, T6), shrink: bool) -> nat {
        let group0 = four_candidates(
            self.m0,
            self.m1,
            self.m2,
            self.m3,
            value.0,
            value.1,
            value.2,
            value.3,
            shrink,
        );
        let group1 = three_candidates(self.m4, self.m5, self.m6, value.4, value.5, value.6, shrink);
        group0 + group1
    }

    open spec fn max_candidates(&self) -> nat {
        self.m0.max_candidates() + self.m1.max_candidates() + self.m2.max_candidates()
            + self.m3.max_candidates() + self.m4.max_candidates() + self.m5.max_candidates()
            + self.m6.max_candidates()
    }

    open spec fn applies(
        &self,
        value: (T0, T1, T2, T3, T4, T5, T6),
        shrink: bool,
        index: nat,
        after: Self,
        new_value: (T0, T1, T2, T3, T4, T5, T6),
        result: Result<(), Error>,
    ) -> bool {
        let end0 = four_candidates(
            self.m0,
            self.m1,
            self.m2,
            self.m3,
            value.0,
            value.1,
            value.2,
            value.3,
            shrink,
        );
        if index < end0 {
            &&& four_applies(
                self.m0,
                self.m1,
                self.m2,
                self.m3,
                value.0,
                value.1,
                value.2,
                value.3,
                shrink,
                index,
                after.m0,
                after.m1,
                after.m2,
                after.m3,
                new_value.0,
                new_value.1,
                new_value.2,
                new_value.3,
                result,
            )
            &&& after.m4 == self.m4 && new_value.4 == value.4
            &&& after.m5 == self.m5 && new_value.5 == value.5
            &&& after.m6 == self.m6 && new_value.6 == value.6
        } else {
            &&& three_applies(
                self.m4,
                self.m5,
                self.m6,
                value.4,
                value.5,
                value.6,
                shrink,
                (index - end0) as nat,
                after.m4,
                after.m5,
                after.m6,
                new_value.4,
                new_value.5,
                new_value.6,
                result,
            )
            &&& after.m0 == self.m0 && new_value.0 == value.0
            &&& after.m1 == self.m1 && new_value.1 == value.1
            &&& after.m2 == self.m2 && new_value.2 == value.2
            &&& after.m3 == self.m3 && new_value.3 == value.3
        }
    }

    fn mutate(
        &mut self,
        c: &mut Candidates<'_>,
        value: &mut (T0, T1, T2, T3, T4, T5, T6),
    ) -> (r: Result<(), Error>) {
        mutate_four(
            &mut self.m0,
            &mut self.m1,
            &mut self.m2,
            &mut self.m3,
            c,
            &mut value.0,
            &mut value.1,
            &mut value.2,
            &mut value.3,
        )?;
        mutate_three(
            &mut self.m4,
            &mut self.m5,
            &mut self.m6,
            c,
            &mut value.4,
            &mut value.5,
            &mut value.6,
        )?;
        Ok(())
    }
}

impl<
    T0: DefaultMutate,
    T1: DefaultMutate,
    T2: DefaultMutate,
    T3: DefaultMutate,
    T4: DefaultMutate,
    T5: DefaultMutate,
    T6: DefaultMutate,
> DefaultMutate for (T0, T1, T2, T3, T4, T5, T6) {
    type DefaultMutate = Tuple7<
        T0::DefaultMutate,
        T1::DefaultMutate,
        T2::DefaultMutate,
        T3::DefaultMutate,
        T4::DefaultMutate,
        T5::DefaultMutate,
        T6::DefaultMutate,
    >;
}

impl<
    M0: Default,
    M1: Default,
    M2: Default,
    M3: Default,
    M4: Default,
    M5: Default,
    M6: Default,
> Default for Tuple7<M0, M1, M2, M3, M4, M5, M6> {
    fn default() -> (m: Self)
        ensures
            call_ensures(M0::default, (), m.m0),
            call_ensures(M1::default, (), m.m1),
            call_ensures(M2::default, (), m.m2),
            call_ensures(M3::default, (), m.m3),
            call_ensures(M4::default, (), m.m4),
            call_ensures(M5::default, (), m.m5),
            call_ensures(M6::default, (), m.m6),
    {
        Tuple7 { 
            m0: M0::default(),
            m1: M1::default(),
            m2: M2::default(),
            m3: M3::default(),
            m4: M4::default(),
            m5: M5::default(),
            m6: M6::default(),
        }
    }
}

/// A mutator for tuples of eight elements.
#[derive(Clone, Debug)]
pub struct Tuple8<M0, M1, M2, M3, M4, M5, M6, M7> {
    pub m0: M0,
    pub m1: M1,
    pub m2: M2,
    pub m3: M3,
    pub m4: M4,
    pub m5: M5,
    pub m6: M6,
    pub m7: M7,
}

/// A mutator for tuples of eight elements, built on a mutator for each.
pub fn tuple8<M0, M1, M2, M3, M4, M5, M6, M7>(
    m0: M0,
    m1: M1,
    m2: M2,
    m3: M3,
    m4: M4,
    m5: M5,
    m6: M6,
    m7: M7,
) -> (m: Tuple8<M0, M1, M2, M3, M4, M5, M6, M7>)
    ensures
        m.m0 == m0,
        m.m1 == m1,
        m.m2 == m2,
        m.m3 == m3,
        m.m4 == m4,
        m.m5 == m5,
        m.m6 == m6,
        m.m7 == m7,
{
    Tuple8 { m0, m1, m2, m3, m4, m5, m6, m7 }
}

impl<
    M0, T0,
    M1, T1,
    M2, T2,
    M3, T3,
    M4, T4,
    M5, T5,
    M6, T6,
    M7, T7,
> Mutate<
    (T0, T1, T2, T3, T4, T5, T6, T7),
> for Tuple8<M0, M1, M2, M3, M4, M5, M6, M7> where
    M0: Mutate<T0>,
    M1: Mutate<T1>,
    M2: Mutate<T2>,
    M3: Mutate<T3>,
    M4: Mutate<T4>,
    M5: Mutate<T5>,
    M6: Mutate<T6>,
    M7: Mutate<T7>,
 {
    open spec fn wf(&self) -> bool {
        &&& self.m0.wf()
        &&& self.m1.wf()
        &&& self.m2.wf()
        &&& self.m3.wf()
        &&& self.m4.wf()
        &&& self.m5.wf()
        &&& self.m6.wf()
        &&& self.m7.wf()
        &&& self.max_candidates() <= u32::MAX
    }

    open spec fn rejects(
        &self,
        value: (T0, T1, T2, T3, T4, T5, T6, T7),
        shrink: bool,
    ) -> Option<ErrorKind> {
        let group0 = four_rejects(
            self.m0,
            self.m1,
            self.m2,
            self.m3,
            value.0,
            value.1,
            value.2,
            value.3,
            shrink,
        );
        if group0 is Some {
            group0
        } else {
            four_rejects(
                self.m4,
                self.m5,
                self.m6,
                self.m7,
                value.4,
                value.5,
                value.6,
                value.7,
                shrink,
            )
        }
    }

    open spec fn candidates(&self, value: (T0, T1, T2, T3, T4, T5, T6, T7), shrink: bool) -> nat {
        let group0 = four_candidates(
            self.m0,
            self.m1,
            self.m2,
            self.m3,
            value.0,
            value.1,
            value.2,
            value.3,
            shrink,
        );
        let group1 = four_candidates(
            self.m4,
            self.m5,
            self.m6,
            self.m7,
            value.4,
            value.5,
            value.6,
            value.7,
            shrink,
        );
        group0 + group1
    }

    open spec fn max_candidates(&self) -> nat {
        self.m0.max_candidates() + self.m1.max_candidates() + self.m2.max_candidates()
            + self.m3.max_candidates() + self.m4.max_candidates() + self.m5.max_candidates()
            + self.m6.max_candidates() + self.m7.max_candidates()
    }

    open spec fn applies(
        &self,
        value: (T0, T1, T2, T3, T4, T5, T6, T7),
        shrink: bool,
        index: nat,
        after: Self,
        new_value: (T0, T1, T2, T3, T4, T5, T6, T7),
        result: Result<(), Error>,
    ) -> bool {
        let end0 = four_candidates(
            self.m0,
            self.m1,
            self.m2,
            self.m3,
            value.0,
            value.1,
            value.2,
            value.3,
            shrink,
        );
        if index < end0 {
            &&& four_applies(
                self.m0,
                self.m1,
                self.m2,
                self.m3,
                value.0,
                value.1,
                value.2,
                value.3,
                shrink,
                index,
                after.m0,
                after.m1,
                after.m2,
                after.m3,
                new_value.0,
                new_value.1,
                new_value.2,
                new_value.3,
                result,
            )
            &&& after.m4 == self.m4 && new_value.4 == value.4
            &&& after.m5 == self.m5 && new_value.5 == value.5
            &&& after.m6 == self.m6 && new_value.6 == value.6
            &&& after.m7 == self.m7 && new_value.7 == value.7
        } else {
            &&& four_applies(
                self.m4,
                self.m5,
                self.m6,
                self.m7,
                value.4,
                value.5,
                value.6,
                value.7,
                shrink,
                (index - end0) as nat,
                after.m4,
                after.m5,
                after.m6,
                after.m7,
                new_value.4,
                new_value.5,
                new_value.6,
                new_value.7,
                result,
            )
            &&& after.m0 == self.m0 && new_value.0 == value.0
            &&& after.m1 == self.m1 && new_value.1 == value.1
            &&& after.m2 == self.m2 && new_value.2 == value.2
            &&& after.m3 == self.m3 && new_value.3 == value.3
        }
    }

    fn mutate(
        &mut self,
        c: &mut Candidates<'_>,
        value: &mut (T0, T1, T2, T3, T4, T5, T6, T7),
    ) -> (r: Result<(), Error>) {
        mutate_four(
            &mut self.m0,
            &mut self.m1,
            &mut self.m2,
            &mut self.m3,
            c,
            &mut value.0,
            &mut value.1,
            &mut value.2,
            &mut value.3,
        )?;
        mutate_four(
            &mut self.m4,
            &mut self.m5,
            &mut self.m6,
            &mut self.m7,
            c,
            &mut value.4,
            &mut value.5,
            &mut value.6,
            &mut value.7,
        )?;
        Ok(())
    }
}

impl<
    T0: DefaultMutate,
    T1: DefaultMutate,
    T2: DefaultMutate,
    T3: DefaultMutate,
    T4: DefaultMutate,
    T5: DefaultMutate,
    T6: DefaultMutate,
    T7: DefaultMutate,
> DefaultMutate for (T0, T1, T2, T3, T4, T5, T6, T7) {
    type DefaultMutate = Tuple8<
        T0::DefaultMutate,
        T1::DefaultMutate,
        T2::DefaultMutate,
        T3::DefaultMutate,
        T4::DefaultMutate,
        T5::DefaultMutate,
        T6::DefaultMutate,
        T7::DefaultMutate,
    >;
}

impl<
    M0: Default,
    M1: Default,
    M2: Default,
    M3: Default,
    M4: Default,
    M5: Default,
    M6: Default,
    M7: Default,
> Default for Tuple8<M0, M1, M2, M3, M4, M5, M6, M7> {
    fn default() -> (m: Self)
        ensures
            call_ensures(M0::default, (), m.m0),
            call_ensures(M1::default, (), m.m1),
            call_ensures(M2::default, (), m.m2),
            call_ensures(M3::default, (), m.m3),
            call_ensures(M4::default, (), m.m4),
            call_ensures(M5::default, (), m.m5),
            call_ensures(M6::default, (), m.m6),
            call_ensures(M7::default, (), m.m7),
    {
        Tuple8 { 
            m0: M0::default(),
            m1: M1::default(),
            m2: M2::default(),
            m3: M3::default(),
            m4: M4::default(),
            m5: M5::default(),
            m6: M6::default(),
            m7: M7::default(),
        }
    }
}

/// A mutator for tuples of nine elements.
#[derive(Clone, Debug)]
pub struct Tuple9<M0, M1, M2, M3, M4, M5, M6, M7, M8> {
    pub m0: M0,
    pub m1: M1,
    pub m2: M2,
    pub m3: M3,
    pub m4: M4,
    pub m5: M5,
    pub m6: M6,
    pub m7: M7,
    pub m8: M8,
}

/// A mutator for tuples of nine elements, built on a mutator for each.
pub fn tuple9<M0, M1, M2, M3, M4, M5, M6, M7, M8>(
    m0: M0,
    m1: M1,
    m2: M2,
    m3: M3,
    m4: M4,
    m5: M5,
    m6: M6,
    m7: M7,
    m8: M8,
) -> (m: Tuple9<M0, M1, M2, M3, M4, M5, M6, M7, M8>)
    ensures
        m.m0 == m0,
        m.m1 == m1,
        m.m2 == m2,
        m.m3 == m3,
        m.m4 == m4,
        m.m5 == m5,
        m.m6 == m6,
        m.m7 == m7,
        m.m8 == m8,
{
    Tuple9 { m0, m1, m2, m3, m4, m5, m6, m7, m8 }
}

impl<
    M0, T0,
    M1, T1,
    M2, T2,
    M3, T3,
    M4, T4,
    M5, T5,
    M6, T6,
    M7, T7,
    M8, T8,
> Mutate<
    (T0, T1, T2, T3, T4, T5, T6, T7, T8),
> for Tuple9<M0, M1, M2, M3, M4, M5, M6, M7, M8> where
    M0: Mutate<T0>,
    M1: Mutate<T1>,
    M2: Mutate<T2>,
    M3: Mutate<T3>,
    M4: Mutate<T4>,
    M5: Mutate<T5>,
    M6: Mutate<T6>,
    M7: Mutate<T7>,
    M8: Mutate<T8>,
 {
    open spec fn wf(&self) -> bool {
        &&& self.m0.wf()
        &&& self.m1.wf()
        &&& self.m2.wf()
        &&& self.m3.wf()
        &&& self.m4.wf()
        &&& self.m5.wf()
        &&& self.m6.wf()
        &&& self.m7.wf()
        &&& self.m8.wf()
        &&& self.max_candidates() <= u32::MAX
    }

    open spec fn rejects(
        &self,
        value: (T0, T1, T2, T3, T4, T5, T6, T7, T8),
        shrink: bool,
    ) -> Option<ErrorKind> {
        let group0 = four_rejects(
            self.m0,
            self.m1,
            self.m2,
            self.m3,
            value.0,
            value.1,
            value.2,
            value.3,
            shrink,
        );
        let group1 = four_rejects(
            self.m4,
            self.m5,
            self.m6,
            self.m7,
            value.4,
            value.5,
            value.6,
            value.7,
            shrink,
        );
        if group0 is Some {
            group0
        } else if group1 is Some {
            group1
        } else {
            self.m8.rejects(value.8, shrink)
        }
    }

    open spec fn candidates(
        &self,
        value: (T0, T1, T2, T3, T4, T5, T6, T7, T8),
        shrink: bool,
    ) -> nat {
        let group0 = four_candidates(
            self.m0,
            self.m1,
            self.m2,
            self.m3,
            value.0,
            value.1,
            value.2,
            value.3,
            shrink,
        );
        let group1 = four_candidates(
            self.m4,
            self.m5,
            self.m6,
            self.m7,
            value.4,
            value.5,
            value.6,
            value.7,
            shrink,
        );
        group0 + group1 + self.m8.candidates(value.8, shrink)
    }

    open spec fn max_candidates(&self) -> nat {
        self.m0.max_candidates() + self.m1.max_candidates() + self.m2.max_candidates()
            + self.m3.max_candidates() + self.m4.max_candidates() + self.m5.max_candidates()
            + self.m6.max_candidates() + self.m7.max_candidates() + self.m8.max_candidates()
    }

    open spec fn applies(
        &self,
        value: (T0, T1, T2, T3, T4, T5, T6, T7, T8),
        shrink: bool,
        index: nat,
        after: Self,
        new_value: (T0, T1, T2, T3, T4, T5, T6, T7, T8),
        result: Result<(), Error>,
    ) -> bool {
        let end0 = four_candidates(
            self.m0,
            self.m1,
            self.m2,
            self.m3,
            value.0,
            value.1,
            value.2,
            value.3,
            shrink,
        );
        let end1 = end0 + four_candidates(
            self.m4,
            self.m5,
            self.m6,
            self.m7,
            value.4,
            value.5,
            value.6,
            value.7,
            shrink,
        );
        if index < end0 {
            &&& four_applies(
                self.m0,
                self.m1,
                self.m2,
                self.m3,
                value.0,
                value.1,
                value.2,
                value.3,
                shrink,
                index,
                after.m0,
                after.m1,
                after.m2,
                after.m3,
                new_value.0,
                new_value.1,
                new_value.2,
                new_value.3,
                result,
            )
            &&& after.m4 == self.m4 && new_value.4 == value.4
            &&& after.m5 == self.m5 && new_value.5 == value.5
            &&& after.m6 == self.m6 && new_value.6 == value.6
            &&& after.m7 == self.m7 && new_value.7 == value.7
            &&& after.m8 == self.m8 && new_value.8 == value.8
        } else if index < end1 {
            &&& four_applies(
                self.m4,
                self.m5,
                self.m6,
                self.m7,
                value.4,
                value.5,
                value.6,
                value.7,
                shrink,
                (index - end0) as nat,
                after.m4,
                after.m5,
                after.m6,
                after.m7,
                new_value.4,
                new_value.5,
                new_value.6,
                new_value.7,
                result,
            )
            &&& after.m0 == self.m0 && new_value.0 == value.0
            &&& after.m1 == self.m1 && new_value.1 == value.1
            &&& after.m2 == self.m2 && new_value.2 == value.2
            &&& after.m3 == self.m3 && new_value.3 == value.3
            &&& after.m8 == self.m8 && new_value.8 == value.8
        } else {
            &&& self.m8.applies(
                value.8,
                shrink,
                (index - end1) as nat,
                after.m8,
                new_value.8,
                result,
            )
            &&& after.m0 == self.m0 && new_value.0 == value.0
            &&& after.m1 == self.m1 && new_value.1 == value.1
            &&& after.m2 == self.m2 && new_value.2 == value.2
            &&& after.m3 == self.m3 && new_value.3 == value.3
            &&& after.m4 == self.m4 && new_value.4 == value.4
            &&& after.m5 == self.m5 && new_value.5 == value.5
            &&& after.m6 == self.m6 && new_value.6 == value.6
            &&& after.m7 == self.m7 && new_value.7 == value.7
        }
    }

    #[verifier::rlimit(50)]
    fn mutate(
        &mut self,
        c: &mut Candidates<'_>,
        value: &mut (T0, T1, T2, T3, T4, T5, T6, T7, T8),
    ) -> (r: Result<(), Error>) {
        mutate_four(
            &mut self.m0,
            &mut self.m1,
            &mut self.m2,
            &mut self.m3,
            c,
            &mut value.0,
            &mut value.1,
            &mut value.2,
            &mut value.3,
        )?;
        mutate_four(
            &mut self.m4,
            &mut self.m5,
            &mut self.m6,
            &mut self.m7,
            c,
            &mut value.4,
            &mut value.5,
            &mut value.6,
            &mut value.7,
        )?;
        self.m8.mutate(c, &mut value.8)?;
        Ok(())
    }
}

impl<
    T0: DefaultMutate,
    T1: DefaultMutate,
    T2: DefaultMutate,
    T3: DefaultMutate,
    T4: DefaultMutate,
    T5: DefaultMutate,
    T6: DefaultMutate,
    T7: DefaultMutate,
    T8: DefaultMutate,
> DefaultMutate for (T0, T1, T2, T3, T4, T5, T6, T7, T8) {
    type DefaultMutate = Tuple9<
        T0::DefaultMutate,
        T1::DefaultMutate,
        T2::DefaultMutate,
        T3::DefaultMutate,
        T4::DefaultMutate,
        T5::DefaultMutate,
        T6::DefaultMutate,
        T7::DefaultMutate,
        T8::DefaultMutate,
    >;
}

impl<
    M0: Default,
    M1: Default,
    M2: Default,
    M3: Default,
    M4: Default,
    M5: Default,
    M6: Default,
    M7: Default,
    M8: Default,
> Default for Tuple9<M0, M1, M2, M3, M4, M5, M6, M7, M8> {
    fn default() -> (m: Self)
        ensures
            call_ensures(M0::default, (), m.m0),
            call_ensures(M1::default, (), m.m1),
            call_ensures(M2::default, (), m.m2),
            call_ensures(M3::default, (), m.m3),
            call_ensures(M4::default, (), m.m4),
            call_ensures(M5::default, (), m.m5),
            call_ensures(M6::default, (), m.m6),
            call_ensures(M7::default, (), m.m7),
            call_ensures(M8::default, (), m.m8),
    {
        Tuple9 { 
            m0: M0::default(),
            m1: M1::default(),
            m2: M2::default(),
            m3: M3::default(),
            m4: M4::default(),
            m5: M5::default(),
            m6: M6::default(),
            m7: M7::default(),
            m8: M8::default(),
        }
    }
}

/// A mutator for tuples of ten elements.
#[derive(Clone, Debug)]
pub struct Tuple10<M0, M1, M2, M3, M4, M5, M6, M7, M8, M9> {
    pub m0: M0,
    pub m1: M1,
    pub m2: M2,
    pub m3: M3,
    pub m4: M4,
    pub m5: M5,
    pub m6: M6,
    pub m7: M7,
    pub m8: M8,
    pub m9: M9,
}

/// A mutator for tuples of ten elements, built on a mutator for each.
pub fn tuple10<M0, M1, M2, M3, M4, M5, M6, M7, M8, M9>(
    m0: M0,
    m1: M1,
    m2: M2,
    m3: M3,
    m4: M4,
    m5: M5,
    m6: M6,
    m7: M7,
    m8: M8,
    m9: M9,
) -> (m: Tuple10<M0, M1, M2, M3, M4, M5, M6, M7, M8, M9>)
    ensures
        m.m0 == m0,
        m.m1 == m1,
        m.m2 == m2,
        m.m3 == m3,
        m.m4 == m4,
        m.m5 == m5,
        m.m6 == m6,
        m.m7 == m7,
        m.m8 == m8,
        m.m9 == m9,
{
    Tuple10 { m0, m1, m2, m3, m4, m5, m6, m7, m8, m9 }
}

impl<
    M0, T0,
    M1, T1,
    M2, T2,
    M3, T3,
    M4, T4,
    M5, T5,
    M6, T6,
    M7, T7,
    M8, T8,
    M9, T9,
> Mutate<
    (T0, T1, T2, T3, T4, T5, T6, T7, T8, T9),
> for Tuple10<M0, M1, M2, M3, M4, M5, M6, M7, M8, M9> where
    M0: Mutate<T0>,
    M1: Mutate<T1>,
    M2: Mutate<T2>,
    M3: Mutate<T3>,
    M4: Mutate<T4>,
    M5: Mutate<T5>,
    M6: Mutate<T6>,
    M7: Mutate<T7>,
    M8: Mutate<T8>,
    M9: Mutate<T9>,
 {
    open spec fn wf(&self) -> bool {
        &&& self.m0.wf()
        &&& self.m1.wf()
        &&& self.m2.wf()
        &&& self.m3.wf()
        &&& self.m4.wf()
        &&& self.m5.wf()
        &&& self.m6.wf()
        &&& self.m7.wf()
        &&& self.m8.wf()
        &&& self.m9.wf()
        &&& self.max_candidates() <= u32::MAX
    }

    open spec fn rejects(
        &self,
        value: (T0, T1, T2, T3, T4, T5, T6, T7, T8, T9),
        shrink: bool,
    ) -> Option<ErrorKind> {
        let group0 = four_rejects(
            self.m0,
            self.m1,
            self.m2,
            self.m3,
            value.0,
            value.1,
            value.2,
            value.3,
            shrink,
        );
        let group1 = four_rejects(
            self.m4,
            self.m5,
            self.m6,
            self.m7,
            value.4,
            value.5,
            value.6,
            value.7,
            shrink,
        );
        if group0 is Some {
            group0
        } else if group1 is Some {
            group1
        } else {
            two_rejects(self.m8, self.m9, value.8, value.9, shrink)
        }
    }

    open spec fn candidates(
        &self,
        value: (T0, T1, T2, T3, T4, T5, T6, T7, T8, T9),
        shrink: bool,
    ) -> nat {
        let group0 = four_candidates(
            self.m0,
            self.m1,
            self.m2,
            self.m3,
            value.0,
            value.1,
            value.2,
            value.3,
            shrink,
        );
        let group1 = four_candidates(
            self.m4,
            self.m5,
            self.m6,
            self.m7,
            value.4,
            value.5,
            value.6,
            value.7,
            shrink,
        );
        let group2 = two_candidates(self.m8, self.m9, value.8, value.9, shrink);
        group0 + group1 + group2
    }

    open spec fn max_candidates(&self) -> nat {
        self.m0.max_candidates() + self.m1.max_candidates() + self.m2.max_candidates()
            + self.m3.max_candidates() + self.m4.max_candidates() + self.m5.max_candidates()
            + self.m6.max_candidates() + self.m7.max_candidates() + self.m8.max_candidates()
            + self.m9.max_candidates()
    }

    open spec fn applies(
        &self,
        value: (T0, T1, T2, T3, T4, T5, T6, T7, T8, T9),
        shrink: bool,
        index: nat,
        after: Self,
        new_value: (T0, T1, T2, T3, T4, T5, T6, T7, T8, T9),
        result: Result<(), Error>,
    ) -> bool {
        let end0 = four_candidates(
            self.m0,
            self.m1,
            self.m2,
            self.m3,
            value.0,
            value.1,
            value.2,
            value.3,
            shrink,
        );
        let end1 = end0 + four_candidates(
            self.m4,
            self.m5,
            self.m6,
            self.m7,
            value.4,
            value.5,
            value.6,
            value.7,
            shrink,
        );
        if index < end0 {
            &&& four_applies(
                self.m0,
                self.m1,
                self.m2,
                self.m3,
                value.0,
                value.1,
                value.2,
                value.3,
                shrink,
                index,
                after.m0,
                after.m1,
                after.m2,
                after.m3,
                new_value.0,
                new_value.1,
                new_value.2,
                new_value.3,
                result,
            )
            &&& after.m4 == self.m4 && new_value.4 == value.4
            &&& after.m5 == self.m5 && new_value.5 == value.5
            &&& after.m6 == self.m6 && new_value.6 == value.6
            &&& after.m7 == self.m7 && new_value.7 == value.7
            &&& after.m8 == self.m8 && new_value.8 == value.8
            &&& after.m9 == self.m9 && new_value.9 == value.9
        } else if index < end1 {
            &&& four_applies(
                self.m4,
                self.m5,
                self.m6,
                self.m7,
                value.4,
                value.5,
                value.6,
                value.7,
                shrink,
                (index - end0) as nat,
                after.m4,
                after.m5,
                after.m6,
                after.m7,
                new_value.4,
                new_value.5,
                new_value.6,
                new_value.7,
                result,
            )
            &&& after.m0 == self.m0 && new_value.0 == value.0
            &&& after.m1 == self.m1 && new_value.1 == value.1
            &&& after.m2 == self.m2 && new_value.2 == value.2
            &&& after.m3 == self.m3 && new_value.3 == value.3
            &&& after.m8 == self.m8 && new_value.8 == value.8
            &&& after.m9 == self.m9 && new_value.9 == value.9
        } else {
            &&& two_applies(
                self.m8,
                self.m9,
                value.8,
                value.9,
                shrink,
                (index - end1) as nat,
                after.m8,
                after.m9,
                new_value.8,
                new_value.9,
                result,
            )
            &&& after.m0 == self.m0 && new_value.0 == value.0
            &&& after.m1 == self.m1 && new_value.1 == value.1
            &&& after.m2 == self.m2 && new_value.2 == value.2
            &&& after.m3 == self.m3 && new_value.3 == value.3
            &&& after.m4 == self.m4 && new_value.4 == value.4
            &&& after.m5 == self.m5 && new_value.5 == value.5
            &&& after.m6 == self.m6 && new_value.6 == value.6
            &&& after.m7 == self.m7 && new_value.7 == value.7
        }
    }

    #[verifier::rlimit(50)]
    fn mutate(
        &mut self,
        c: &mut Candidates<'_>,
        value: &mut (T0, T1, T2, T3, T4, T5, T6, T7, T8, T9),
    ) -> (r: Result<(), Error>) {
        mutate_four(
            &mut self.m0,
            &mut self.m1,
            &mut self.m2,
            &mut self.m3,
            c,
            &mut value.0,
            &mut value.1,
            &mut value.2,
            &mut value.3,
        )?;
        mutate_four(
            &mut self.m4,
            &mut self.m5,
            &mut self.m6,
            &mut self.m7,
            c,
            &mut value.4,
            &mut value.5,
            &mut value.6,
            &mut value.7,
        )?;
        mutate_two(&mut self.m8, &mut self.m9, c, &mut value.8, &mut value.9)?;
        Ok(())
    }
}

impl<
    T0: DefaultMutate,
    T1: DefaultMutate,
    T2: DefaultMutate,
    T3: DefaultMutate,
    T4: DefaultMutate,
    T5: DefaultMutate,
    T6: DefaultMutate,
    T7: DefaultMutate,
    T8: DefaultMutate,
    T9: DefaultMutate,
> DefaultMutate for (T0, T1, T2, T3, T4, T5, T6, T7, T8, T9) {
    type DefaultMutate = Tuple10<
        T0::DefaultMutate,
        T1::DefaultMutate,
        T2::DefaultMutate,
        T3::DefaultMutate,
        T4::DefaultMutate,
        T5::DefaultMutate,
        T6::DefaultMutate,
        T7::DefaultMutate,
        T8::DefaultMutate,
        T9::DefaultMutate,
    >;
}

impl<
    M0: Default,
    M1: Default,
    M2: Default,
    M3: Default,
    M4: Default,
    M5: Default,
    M6: Default,
    M7: Default,
    M8: Default,
    M9: Default,
> Default for Tuple10<M0, M1, M2, M3, M4, M5, M6, M7, M8, M9> {
    fn default() -> (m: Self)
        ensures
            call_ensures(M0::default, (), m.m0),
            call_ensures(M1::default, (), m.m1),
            call_ensures(M2::default, (), m.m2),
            call_ensures(M3::default, (), m.m3),
            call_ensures(M4::default, (), m.m4),
            call_ensures(M5::default, (), m.m5),
            call_ensures(M6::default, (), m.m6),
            call_ensures(M7::default, (), m.m7),
            call_ensures(M8::default, (), m.m8),
            call_ensures(M9::default, (), m.m9),
    {
        Tuple10 { 
            m0: M0::default(),
            m1: M1::default(),
            m2: M2::default(),
            m3: M3::default(),
            m4: M4::default(),
            m5: M5::default(),
            m6: M6::default(),
            m7: M7::default(),
            m8: M8::default(),
            m9: M9::default(),
        }
    }
}

/// A mutator for tuples of eleven elements.
#[derive(Clone, Debug)]
pub struct Tuple11<M0, M1, M2, M3, M4, M5, M6, M7, M8, M9, M10> {
    pub m0: M0,
    pub m1: M1,
    pub m2: M2,
    pub m3: M3,
    pub m4: M4,
    pub m5: M5,
    pub m6: M6,
    pub m7: M7,
    pub m8: M8,
    pub m9: M9,
    pub m10: M10,
}

/// A mutator for tuples of eleven elements, built on a mutator for each.
pub fn tuple11<M0, M1, M2, M3, M4, M5, M6, M7, M8, M9, M10>(
    m0: M0,
    m1: M1,
    m2: M2,
    m3: M3,
    m4: M4,
    m5: M5,
    m6: M6,
    m7: M7,
    m8: M8,
    m9: M9,
    m10: M10,
) -> (m: Tuple11<M0, M1, M2, M3, M4, M5, M6, M7, M8, M9, M10>)
    ensures
        m.m0 == m0,
        m.m1 == m1,
        m.m2 == m2,
        m.m3 == m3,
        m.m4 == m4,
        m.m5 == m5,
        m.m6 == m6,
        m.m7 == m7,
        m.m8 == m8,
        m.m9 == m9,
        m.m10 == m10,
{
    Tuple11 { m0, m1, m2, m3, m4, m5, m6, m7, m8, m9, m10 }
}

impl<
    M0, T0,
    M1, T1,
    M2, T2,
    M3, T3,
    M4, T4,
    M5, T5,
    M6, T6,
    M7, T7,
    M8, T8,
    M9, T9,
    M10, T10,
> Mutate<
    (T0, T1, T2, T3, T4, T5, T6, T7, T8, T9, T10),
> for Tuple11<M0, M1, M2, M3, M4, M5, M6, M7, M8, M9, M10> where
    M0: Mutate<T0>,
    M1: Mutate<T1>,
    M2: Mutate<T2>,
    M3: Mutate<T3>,
    M4: Mutate<T4>,
    M5: Mutate<T5>,
    M6: Mutate<T6>,
    M7: Mutate<T7>,
    M8: Mutate<T8>,
    M9: Mutate<T9>,
    M10: Mutate<T10>,
 {
    open spec fn wf(&self) -> bool {
        &&& self.m0.wf()
        &&& self.m1.wf()
        &&& self.m2.wf()
        &&& self.m3.wf()
        &&& self.m4.wf()
        &&& self.m5.wf()
        &&& self.m6.wf()
        &&& self.m7.wf()
        &&& self.m8.wf()
        &&& self.m9.wf()
        &&& self.m10.wf()
        &&& self.max_candidates() <= u32::MAX
    }

    open spec fn rejects(
        &self,
        value: (T0, T1, T2, T3, T4, T5, T6, T7, T8, T9, T10),
        shrink: bool,
    ) -> Option<ErrorKind> {
        let group0 = four_rejects(
            self.m0,
            self.m1,
            self.m2,
            self.m3,
            value.0,
            value.1,
            value.2,
            value.3,
            shrink,
        );
        let group1 = four_rejects(
            self.m4,
            self.m5,
            self.m6,
            self.m7,
            value.4,
            value.5,
            value.6,
            value.7,
            shrink,
        );
        if group0 is Some {
            group0
        } else if group1 is Some {
            group1
        } else {
            three_rejects(self.m8, self.m9, self.m10, value.8, value.9, value.10, shrink)
        }
    }

    open spec fn candidates(
        &self,
        value: (T0, T1, T2, T3, T4, T5, T6, T7, T8, T9, T10),
        shrink: bool,
    ) -> nat {
        let group0 = four_candidates(
            self.m0,
            self.m1,
            self.m2,
            self.m3,
            value.0,
            value.1,
            value.2,
            value.3,
            shrink,
        );
        let group1 = four_candidates(
            self.m4,
            self.m5,
            self.m6,
            self.m7,
            value.4,
            value.5,
            value.6,
            value.7,
            shrink,
        );
        let group2 = three_candidates(
            self.m8,
            self.m9,
            self.m10,
            value.8,
            value.9,
            value.10,
            shrink,
        );
        group0 + group1 + group2
    }

    open spec fn max_candidates(&self) -> nat {
        self.m0.max_candidates() + self.m1.max_candidates() + self.m2.max_candidates()
            + self.m3.max_candidates() + self.m4.max_candidates() + self.m5.max_candidates()
            + self.m6.max_candidates() + self.m7.max_candidates() + self.m8.max_candidates()
            + self.m9.max_candidates() + self.m10.max_candidates()
    }

    open spec fn applies(
        &self,
        value: (T0, T1, T2, T3, T4, T5, T6, T7, T8, T9, T10),
        shrink: bool,
        index: nat,
        after: Self,
        new_value: (T0, T1, T2, T3, T4, T5, T6, T7, T8, T9, T10),
        result: Result<(), Error>,
    ) -> bool {
        let end0 = four_candidates(
            self.m0,
            self.m1,
            self.m2,
            self.m3,
            value.0,
            value.1,
            value.2,
            value.3,
            shrink,
        );
        let end1 = end0 + four_candidates(
            self.m4,
            self.m5,
            self.m6,
            self.m7,
            value.4,
            value.5,
            value.6,
            value.7,
            shrink,
        );
        if index < end0 {
            &&& four_applies(
                self.m0,
                self.m1,
                self.m2,
                self.m3,
                value.0,
                value.1,
                value.2,
                value.3,
                shrink,
                index,
                after.m0,
                after.m1,
                after.m2,
                after.m3,
                new_value.0,
                new_value.1,
                new_value.2,
                new_value.3,
                result,
            )
            &&& after.m4 == self.m4 && new_value.4 == value.4
            &&& after.m5 == self.m5 && new_value.5 == value.5
            &&& after.m6 == self.m6 && new_value.6 == value.6
            &&& after.m7 == self.m7 && new_value.7 == value.7
            &&& after.m8 == self.m8 && new_value.8 == value.8
            &&& after.m9 == self.m9 && new_value.9 == value.9
            &&& after.m10 == self.m10 && new_value.10 == value.10
        } else if index < end1 {
            &&& four_applies(
                self.m4,
                self.m5,
                self.m6,
                self.m7,
                value.4,
                value.5,
                value.6,
                value.7,
                shrink,
                (index - end0) as nat,
                after.m4,
                after.m5,
                after.m6,
                after.m7,
                new_value.4,
                new_value.5,
                new_value.6,
                new_value.7,
                result,
            )
            &&& after.m0 == self.m0 && new_value.0 == value.0
            &&& after.m1 == self.m1 && new_value.1 == value.1
            &&& after.m2 == self.m2 && new_value.2 == value.2
            &&& after.m3 == self.m3 && new_value.3 == value.3
            &&& after.m8 == self.m8 && new_value.8 == value.8
            &&& after.m9 == self.m9 && new_value.9 == value.9
            &&& after.m10 == self.m10 && new_value.10 == value.10
        } else {
            &&& three_applies(
                self.m8,
                self.m9,
                self.m10,
                value.8,
                value.9,
                value.10,
                shrink,
                (index - end1) as nat,
                after.m8,
                after.m9,
                after.m10,
                new_value.8,
                new_value.9,
                new_value.10,
                result,
            )
            &&& after.m0 == self.m0 && new_value.0 == value.0
            &&& after.m1 == self.m1 && new_value.1 == value.1
            &&& after.m2 == self.m2 && new_value.2 == value.2
            &&& after.m3 == self.m3 && new_value.3 == value.3
            &&& after.m4 == self.m4 && new_value.4 == value.4
            &&& after.m5 == self.m5 && new_value.5 == value.5
            &&& after.m6 == self.m6 && new_value.6 == value.6
            &&& after.m7 == self.m7 && new_value.7 == value.7
        }
    }

    #[verifier::rlimit(50)]
    fn mutate(
        &mut self,
        c: &mut Candidates<'_>,
        value: &mut (T0, T1, T2, T3, T4, T5, T6, T7, T8, T9, T10),
    ) -> (r: Result<(), Error>) {
        mutate_four(
            &mut self.m0,
            &mut self.m1,
            &mut self.m2,
            &mut self.m3,
            c,
            &mut value.0,
            &mut value.1,
            &mut value.2,
            &mut value.3,
        )?;
        mutate_four(
            &mut self.m4,
            &mut self.m5,
            &mut self.m6,
            &mut self.m7,
            c,
            &mut value.4,
            &mut value.5,
            &mut value.6,
            &mut value.7,
        )?;
        mutate_three(
            &mut self.m8,
            &mut self.m9,
            &mut self.m10,
            c,
            &mut value.8,
            &mut value.9,
            &mut value.10,
        )?;
        Ok(())
    }
}

impl<
    T0: DefaultMutate,
    T1: DefaultMutate,
    T2: DefaultMutate,
    T3: DefaultMutate,
    T4: DefaultMutate,
    T5: DefaultMutate,
    T6: DefaultMutate,
    T7: DefaultMutate,
    T8: DefaultMutate,
    T9: DefaultMutate,
    T10: DefaultMutate,
> DefaultMutate for (T0, T1, T2, T3, T4, T5, T6, T7, T8, T9, T10) {
    type DefaultMutate = Tuple11<
        T0::DefaultMutate,
        T1::DefaultMutate,
        T2::DefaultMutate,
        T3::DefaultMutate,
        T4::DefaultMutate,
        T5::DefaultMutate,
        T6::DefaultMutate,
        T7::DefaultMutate,
        T8::DefaultMutate,
        T9::DefaultMutate,
        T10::DefaultMutate,
    >;
}

impl<
    M0: Default,
    M1: Default,
    M2: Default,
    M3: Default,
    M4: Default,
    M5: Default,
    M6: Default,
    M7: Default,
    M8: Default,
    M9: Default,
    M10: Default,
> Default for Tuple11<M0, M1, M2, M3, M4, M5, M6, M7, M8, M9, M10> {
    fn default() -> (m: Self)
        ensures
            call_ensures(M0::default, (), m.m0),
            call_ensures(M1::default, (), m.m1),
            call_ensures(M2::default, (), m.m2),
            call_ensures(M3::default, (), m.m3),
            call_ensures(M4::default, (), m.m4),
            call_ensures(M5::default, (), m.m5),
            call_ensures(M6::default, (), m.m6),
            call_ensures(M7::default, (), m.m7),
            call_ensures(M8::default, (), m.m8),
            call_ensures(M9::default, (), m.m9),
            call_ensures(M10::default, (), m.m10),
    {
        Tuple11 { 
            m0: M0::default(),
            m1: M1::default(),
            m2: M2::default(),
            m3: M3::default(),
            m4: M4::default(),
            m5: M5::default(),
            m6: M6::default(),
            m7: M7::default(),
            m8: M8::default(),
            m9: M9::default(),
            m10: M10::default(),
        }
    }
}

/// A mutator for tuples of twelve elements.
#[derive(Clone, Debug)]
pub struct Tuple12<M0, M1, M2, M3, M4, M5, M6, M7, M8, M9, M10, M11> {
    pub m0: M0,
    pub m1: M1,
    pub m2: M2,
    pub m3: M3,
    pub m4: M4,
    pub m5: M5,
    pub m6: M6,
    pub m7: M7,
    pub m8: M8,
    pub m9: M9,
    pub m10: M10,
    pub m11: M11,
}

/// A mutator for tuples of twelve elements, built on a mutator for each.
pub fn tuple12<M0, M1, M2, M3, M4, M5, M6, M7, M8, M9, M10, M11>(
    m0: M0,
    m1: M1,
    m2: M2,
    m3: M3,
    m4: M4,
    m5: M5,
    m6: M6,
    m7: M7,
    m8: M8,
    m9: M9,
    m10: M10,
    m11: M11,
) -> (m: Tuple12<M0, M1, M2, M3, M4, M5, M6, M7, M8, M9, M10, M11>)
    ensures
        m.m0 == m0,
        m.m1 == m1,
        m.m2 == m2,
        m.m3 == m3,
        m.m4 == m4,
        m.m5 == m5,
        m.m6 == m6,
        m.m7 == m7,
        m.m8 == m8,
        m.m9 == m9,
        m.m10 == m10,
        m.m11 == m11,
{
    Tuple12 { m0, m1, m2, m3, m4, m5, m6, m7, m8, m9, m10, m11 }
}

impl<
    M0, T0,
    M1, T1,
    M2, T2,
    M3, T3,
    M4, T4,
    M5, T5,
    M6, T6,
    M7, T7,
    M8, T8,
    M9, T9,
    M10, T10,
    M11, T11,
> Mutate<
    (T0, T1, T2, T3, T4, T5, T6, T7, T8, T9, T10, T11),
> for Tuple12<M0, M1, M2, M3, M4, M5, M6, M7, M8, M9, M10, M11> where
    M0: Mutate<T0>,
    M1: Mutate<T1>,
    M2: Mutate<T2>,
    M3: Mutate<T3>,
    M4: Mutate<T4>,
    M5: Mutate<T5>,
    M6: Mutate<T6>,
    M7: Mutate<T7>,
    M8: Mutate<T8>,
    M9: Mutate<T9>,
    M10: Mutate<T10>,
    M11: Mutate<T11>,
 {
    open spec fn wf(&self) -> bool {
        &&& self.m0.wf()
        &&& self.m1.wf()
        &&& self.m2.wf()
        &&& self.m3.wf()
        &&& self.m4.wf()
        &&& self.m5.wf()
        &&& self.m6.wf()
        &&& self.m7.wf()
        &&& self.m8.wf()
        &&& self.m9.wf()
        &&& self.m10.wf()
        &&& self.m11.wf()
        &&& self.max_candidates() <= u32::MAX
    }

    open spec fn rejects(
        &self,
        value: (T0, T1, T2, T3, T4, T5, T6, T7, T8, T9, T10, T11),
        shrink: bool,
    ) -> Option<ErrorKind> {
        let group0 = four_rejects(
            self.m0,
            self.m1,
            self.m2,
            self.m3,
            value.0,
            value.1,
            value.2,
            value.3,
            shrink,
        );
        let group1 = four_rejects(
            self.m4,
            self.m5,
            self.m6,
            self.m7,
            value.4,
            value.5,
            value.6,
            value.7,
            shrink,
        );
        if group0 is Some {
            group0
        } else if group1 is Some {
            group1
        } else {
            four_rejects(
                self.m8,
                self.m9,
                self.m10,
                self.m11,
                value.8,
                value.9,
                value.10,
                value.11,
                shrink,
            )
        }
    }

    open spec fn candidates(
        &self,
        value: (T0, T1, T2, T3, T4, T5, T6, T7, T8, T9, T10, T11),
        shrink: bool,
    ) -> nat {
        let group0 = four_candidates(
            self.m0,
            self.m1,
            self.m2,
            self.m3,
            value.0,
            value.1,
            value.2,
            value.3,
            shrink,
        );
        let group1 = four_candidates(
            self.m4,
            self.m5,
            self.m6,
            self.m7,
            value.4,
            value.5,
            value.6,
            value.7,
            shrink,
        );
        let group2 = four_candidates(
            self.m8,
            self.m9,
            self.m10,
            self.m11,
            value.8,
            value.9,
            value.10,
            value.11,
            shrink,
        );
        group0 + group1 + group2
    }

    open spec fn max_candidates(&self) -> nat {
        self.m0.max_candidates() + self.m1.max_candidates() + self.m2.max_candidates()
            + self.m3.max_candidates() + self.m4.max_candidates() + self.m5.max_candidates()
            + self.m6.max_candidates() + self.m7.max_candidates() + self.m8.max_candidates()
            + self.m9.max_candidates() + self.m10.max_candidates() + self.m11.max_candidates()
    }

    open spec fn applies(
        &self,
        value: (T0, T1, T2, T3, T4, T5, T6, T7, T8, T9, T10, T11),
        shrink: bool,
        index: nat,
        after: Self,
        new_value: (T0, T1, T2, T3, T4, T5, T6, T7, T8, T9, T10, T11),
        result: Result<(), Error>,
    ) -> bool {
        let end0 = four_candidates(
            self.m0,
            self.m1,
            self.m2,
            self.m3,
            value.0,
            value.1,
            value.2,
            value.3,
            shrink,
        );
        let end1 = end0 + four_candidates(
            self.m4,
            self.m5,
            self.m6,
            self.m7,
            value.4,
            value.5,
            value.6,
            value.7,
            shrink,
        );
        if index < end0 {
            &&& four_applies(
                self.m0,
                self.m1,
                self.m2,
                self.m3,
                value.0,
                value.1,
                value.2,
                value.3,
                shrink,
                index,
                after.m0,
                after.m1,
                after.m2,
                after.m3,
                new_value.0,
                new_value.1,
                new_value.2,
                new_value.3,
                result,
            )
            &&& after.m4 == self.m4 && new_value.4 == value.4
            &&& after.m5 == self.m5 && new_value.5 == value.5
            &&& after.m6 == self.m6 && new_value.6 == value.6
            &&& after.m7 == self.m7 && new_value.7 == value.7
            &&& after.m8 == self.m8 && new_value.8 == value.8
            &&& after.m9 == self.m9 && new_value.9 == value.9
            &&& after.m10 == self.m10 && new_value.10 == value.10
            &&& after.m11 == self.m11 && new_value.11 == value.11
        } else if index < end1 {
            &&& four_applies(
                self.m4,
                self.m5,
                self.m6,
                self.m7,
                value.4,
                value.5,
                value.6,
                value.7,
                shrink,
                (index - end0) as nat,
                after.m4,
                after.m5,
                after.m6,
                after.m7,
                new_value.4,
                new_value.5,
                new_value.6,
                new_value.7,
                result,
            )
            &&& after.m0 == self.m0 && new_value.0 == value.0
            &&& after.m1 == self.m1 && new_value.1 == value.1
            &&& after.m2 == self.m2 && new_value.2 == value.2
            &&& after.m3 == self.m3 && new_value.3 == value.3
            &&& after.m8 == self.m8 && new_value.8 == value.8
            &&& after.m9 == self.m9 && new_value.9 == value.9
            &&& after.m10 == self.m10 && new_value.10 == value.10
            &&& after.m11 == self.m11 && new_value.11 == value.11
        } else {
            &&& four_applies(
                self.m8,
                self.m9,
                self.m10,
                self.m11,
                value.8,
                value.9,
                value.10,
                value.11,
                shrink,
                (index - end1) as nat,
                after.m8,
                after.m9,
                after.m10,
                after.m11,
                new_value.8,
                new_value.9,
                new_value.10,
                new_value.11,
                result,
            )
            &&& after.m0 == self.m0 && new_value.0 == value.0
            &&& after.m1 == self.m1 && new_value.1 == value.1
            &&& after.m2 == self.m2 && new_value.2 == value.2
            &&& after.m3 == self.m3 && new_value.3 == value.3
            &&& after.m4 == self.m4 && new_value.4 == value.4
            &&& after.m5 == self.m5 && new_value.5 == value.5
            &&& after.m6 == self.m6 && new_value.6 == value.6
            &&& after.m7 == self.m7 && new_value.7 == value.7
        }
    }

    #[verifier::rlimit(50)]
    fn mutate(
        &mut self,
        c: &mut Candidates<'_>,
        value: &mut (T0, T1, T2, T3, T4, T5, T6, T7, T8, T9, T10, T11),
    ) -> (r: Result<(), Error>) {
        mutate_four(
            &mut self.m0,
            &mut self.m1,
            &mut self.m2,
            &mut self.m3,
            c,
            &mut value.0,
            &mut value.1,
            &mut value.2,
            &mut value.3,
        )?;
        mutate_four(
            &mut self.m4,
            &mut self.m5,
            &mut self.m6,
            &mut self.m7,
            c,
            &mut value.4,
            &mut value.5,
            &mut value.6,
            &mut value.7,
        )?;
        mutate_four(
            &mut self.m8,
            &mut self.m9,
            &mut self.m10,
            &mut self.m11,
            c,
            &mut value.8,
            &mut value.9,
            &mut value.10,
            &mut value.11,
        )?;
        Ok(())
    }
}

impl<
    T0: DefaultMutate,
    T1: DefaultMutate,
    T2: DefaultMutate,
    T3: DefaultMutate,
    T4: DefaultMutate,
    T5: DefaultMutate,
    T6: DefaultMutate,
    T7: DefaultMutate,
    T8: DefaultMutate,
    T9: DefaultMutate,
    T10: DefaultMutate,
    T11: DefaultMutate,
> DefaultMutate for (T0, T1, T2, T3, T4, T5, T6, T7, T8, T9, T10, T11) {
    type DefaultMutate = Tuple12<
        T0::DefaultMutate,
        T1::DefaultMutate,
        T2::DefaultMutate,
        T3::DefaultMutate,
        T4::DefaultMutate,
        T5::DefaultMutate,
        T6::DefaultMutate,
        T7::DefaultMutate,
        T8::DefaultMutate,
        T9::DefaultMutate,
        T10::DefaultMutate,
        T11::DefaultMutate,
    >;
}

impl<
    M0: Default,
    M1: Default,
    M2: Default,
    M3: Default,
    M4: Default,
    M5: Default,
    M6: Default,
    M7: Default,
    M8: Default,
    M9: Default,
    M10: Default,
    M11: Default,
> Default for Tuple12<M0, M1, M2, M3, M4, M5, M6, M7, M8, M9, M10, M11> {
    fn default() -> (m: Self)
        ensures
            call_ensures(M0::default, (), m.m0),
            call_ensures(M1::default, (), m.m1),
            call_ensures(M2::default, (), m.m2),
            call_ensures(M3::default, (), m.m3),
            call_ensures(M4::default, (), m.m4),
            call_ensures(M5::default, (), m.m5),
            call_ensures(M6::default, (), m.m6),
            call_ensures(M7::default, (), m.m7),
            call_ensures(M8::default, (), m.m8),
            call_ensures(M9::default, (), m.m9),
            call_ensures(M10::default, (), m.m10),
            call_ensures(M11::default, (), m.m11),
    {
        Tuple12 { 
            m0: M0::default(),
            m1: M1::default(),
            m2: M2::default(),
            m3: M3::default(),
            m4: M4::default(),
            m5: M5::default(),
            m6: M6::default(),
            m7: M7::default(),
            m8: M8::default(),
            m9: M9::default(),
            m10: M10::default(),
            m11: M11::default(),
        }
    }
}

/// A mutator for tuples of thirteen elements.
#[derive(Clone, Debug)]
pub struct Tuple13<M0, M1, M2, M3, M4, M5, M6, M7, M8, M9, M10, M11, M12> {
    pub m0: M0,
    pub m1: M1,
    pub m2: M2,
    pub m3: M3,
    pub m4: M4,
    pub m5: M5,
    pub m6: M6,
    pub m7: M7,
    pub m8: M8,
    pub m9: M9,
    pub m10: M10,
    pub m11: M11,
    pub m12: M12,
}

/// A mutator for tuples of thirteen elements, built on a mutator for each.
pub fn tuple13<M0, M1, M2, M3, M4, M5, M6, M7, M8, M9, M10, M11, M12>(
    m0: M0,
    m1: M1,
    m2: M2,
    m3: M3,
    m4: M4,
    m5: M5,
    m6: M6,
    m7: M7,
    m8: M8,
    m9: M9,
    m10: M10,
    m11: M11,
    m12: M12,
) -> (m: Tuple13<M0, M1, M2, M3, M4, M5, M6, M7, M8, M9, M10, M11, M12>)
    ensures
        m.m0 == m0,
        m.m1 == m1,
        m.m2 == m2,
        m.m3 == m3,
        m.m4 == m4,
        m.m5 == m5,
        m.m6 == m6,
        m.m7 == m7,
        m.m8 == m8,
        m.m9 == m9,
        m.m10 == m10,
        m.m11 == m11,
        m.m12 == m12,
{
    Tuple13 { m0, m1, m2, m3, m4, m5, m6, m7, m8, m9, m10, m11, m12 }
}

impl<
    M0, T0,
    M1, T1,
    M2, T2,
    M3, T3,
    M4, T4,
    M5, T5,
    M6, T6,
    M7, T7,
    M8, T8,
    M9, T9,
    M10, T10,
    M11, T11,
    M12, T12,
> Mutate<
    (T0, T1, T2, T3, T4, T5, T6, T7, T8, T9, T10, T11, T12),
> for Tuple13<M0, M1, M2, M3, M4, M5, M6, M7, M8, M9, M10, M11, M12> where
    M0: Mutate<T0>,
    M1: Mutate<T1>,
    M2: Mutate<T2>,
    M3: Mutate<T3>,
    M4: Mutate<T4>,
    M5: Mutate<T5>,
    M6: Mutate<T6>,
    M7: Mutate<T7>,
    M8: Mutate<T8>,
    M9: Mutate<T9>,
    M10: Mutate<T10>,
    M11: Mutate<T11>,
    M12: Mutate<T12>,
 {
    open spec fn wf(&self) -> bool {
        &&& self.m0.wf()
        &&& self.m1.wf()
        &&& self.m2.wf()
        &&& self.m3.wf()
        &&& self.m4.wf()
        &&& self.m5.wf()
        &&& self.m6.wf()
        &&& self.m7.wf()
        &&& self.m8.wf()
        &&& self.m9.wf()
        &&& self.m10.wf()
        &&& self.m11.wf()
        &&& self.m12.wf()
        &&& self.max_candidates() <= u32::MAX
    }

    open spec fn rejects(
        &self,
        value: (T0, T1, T2, T3, T4, T5, T6, T7, T8, T9, T10, T11, T12),
        shrink: bool,
    ) -> Option<ErrorKind> {
        let group0 = four_rejects(
            self.m0,
            self.m1,
            self.m2,
            self.m3,
            value.0,
            value.1,
            value.2,
            value.3,
            shrink,
        );
        let group1 = four_rejects(
            self.m4,
            self.m5,
            self.m6,
            self.m7,
            value.4,
            value.5,
            value.6,
            value.7,
            shrink,
        );
        let group2 = four_rejects(
            self.m8,
            self.m9,
            self.m10,
            self.m11,
            value.8,
            value.9,
            value.10,
            value.11,
            shrink,
        );
        if group0 is Some {
            group0
        } else if group1 is Some {
            group1
        } else if group2 is Some {
            group2
        } else {
            self.m12.rejects(value.12, shrink)
        }
    }

    open spec fn candidates(
        &self,
        value: (T0, T1, T2, T3, T4, T5, T6, T7, T8, T9, T10, T11, T12),
        shrink: bool,
    ) -> nat {
        let group0 = four_candidates(
            self.m0,
            self.m1,
            self.m2,
            self.m3,
            value.0,
            value.1,
            value.2,
            value.3,
            shrink,
        );
        let group1 = four_candidates(
            self.m4,
            self.m5,
            self.m6,
            self.m7,
            value.4,
            value.5,
            value.6,
            value.7,
            shrink,
        );
        let group2 = four_candidates(
            self.m8,
            self.m9,
            self.m10,
            self.m11,
            value.8,
            value.9,
            value.10,
            value.11,
            shrink,
        );
        group0 + group1 + group2 + self.m12.candidates(value.12, shrink)
    }

    open spec fn max_candidates(&self) -> nat {
        self.m0.max_candidates() + self.m1.max_candidates() + self.m2.max_candidates()
            + self.m3.max_candidates() + self.m4.max_candidates() + self.m5.max_candidates()
            + self.m6.max_candidates() + self.m7.max_candidates() + self.m8.max_candidates()
            + self.m9.max_candidates() + self.m10.max_candidates() + self.m11.max_candidates()
            + self.m12.max_candidates()
    }

    open spec fn applies(
        &self,
        value: (T0, T1, T2, T3, T4, T5, T6, T7, T8, T9, T10, T11, T12),
        shrink: bool,
        index: nat,
        after: Self,
        new_value: (T0, T1, T2, T3, T4, T5, T6, T7, T8, T9, T10, T11, T12),
        result: Result<(), Error>,
    ) -> bool {
        let end0 = four_candidates(
            self.m0,
            self.m1,
            self.m2,
            self.m3,
            value.0,
            value.1,
            value.2,
            value.3,
            shrink,
        );
        let end1 = end0 + four_candidates(
            self.m4,
            self.m5,
            self.m6,
            self.m7,
            value.4,
            value.5,
            value.6,
            value.7,
            shrink,
        );
        let end2 = end1 + four_candidates(
            self.m8,
            self.m9,
            self.m10,
            self.m11,
            value.8,
            value.9,
            value.10,
            value.11,
            shrink,
        );
        if index < end0 {
            &&& four_applies(
                self.m0,
                self.m1,
                self.m2,
                self.m3,
                value.0,
                value.1,
                value.2,
                value.3,
                shrink,
                index,
                after.m0,
                after.m1,
                after.m2,
                after.m3,
                new_value.0,
                new_value.1,
                new_value.2,
                new_value.3,
                result,
            )
            &&& after.m4 == self.m4 && new_value.4 == value.4
            &&& after.m5 == self.m5 && new_value.5 == value.5
            &&& after.m6 == self.m6 && new_value.6 == value.6
            &&& after.m7 == self.m7 && new_value.7 == value.7
            &&& after.m8 == self.m8 && new_value.8 == value.8
            &&& after.m9 == self.m9 && new_value.9 == value.9
            &&& after.m10 == self.m10 && new_value.10 == value.10
            &&& after.m11 == self.m11 && new_value.11 == value.11
            &&& after.m12 == self.m12 && new_value.12 == value.12
        } else if index < end1 {
            &&& four_applies(
                self.m4,
                self.m5,
                self.m6,
                self.m7,
                value.4,
                value.5,
                value.6,
                value.7,
                shrink,
                (index - end0) as nat,
                after.m4,
                after.m5,
                after.m6,
                after.m7,
                new_value.4,
                new_value.5,
                new_value.6,
                new_value.7,
                result,
            )
            &&& after.m0 == self.m0 && new_value.0 == value.0
            &&& after.m1 == self.m1 && new_value.1 == value.1
            &&& after.m2 == self.m2 && new_value.2 == value.2
            &&& after.m3 == self.m3 && new_value.3 == value.3
            &&& after.m8 == self.m8 && new_value.8 == value.8
            &&& after.m9 == self.m9 && new_value.9 == value.9
            &&& after.m10 == self.m10 && new_value.10 == value.10
            &&& after.m11 == self.m11 && new_value.11 == value.11
            &&& after.m12 == self.m12 && new_value.12 == value.12
        } else if index < end2 {
            &&& four_applies(
                self.m8,
                self.m9,
                self.m10,
                self.m11,
                value.8,
                value.9,
                value.10,
                value.11,
                shrink,
                (index - end1) as nat,
                after.m8,
                after.m9,
                after.m10,
                after.m11,
                new_value.8,
                new_value.9,
                new_value.10,
                new_value.11,
                result,
            )
            &&& after.m0 == self.m0 && new_value.0 == value.0
            &&& after.m1 == self.m1 && new_value.1 == value.1
            &&& after.m2 == self.m2 && new_value.2 == value.2
            &&& after.m3 == self.m3 && new_value.3 == value.3
            &&& after.m4 == self.m4 && new_value.4 == value.4
            &&& after.m5 == self.m5 && new_value.5 == value.5
            &&& after.m6 == self.m6 && new_value.6 == value.6
            &&& after.m7 == self.m7 && new_value.7 == value.7
            &&& after.m12 == self.m12 && new_value.12 == value.12
        } else {
            &&& self.m12.applies(
                value.12,
                shrink,
                (index - end2) as nat,
                after.m12,
                new_value.12,
                result,
            )
            &&& after.m0 == self.m0 && new_value.0 == value.0
            &&& after.m1 == self.m1 && new_value.1 == value.1
            &&& after.m2 == self.m2 && new_value.2 == value.2
            &&& after.m3 == self.m3 && new_value.3 == value.3
            &&& after.m4 == self.m4 && new_value.4 == value.4
            &&& after.m5 == self.m5 && new_value.5 == value.5
            &&& after.m6 == self.m6 && new_value.6 == value.6
            &&& after.m7 == self.m7 && new_value.7 == value.7
            &&& after.m8 == self.m8 && new_value.8 == value.8
            &&& after.m9 == self.m9 && new_value.9 == value.9
            &&& after.m10 == self.m10 && new_value.10 == value.10
            &&& after.m11 == self.m11 && new_value.11 == value.11
        }
    }

    #[verifier::rlimit(50)]
    fn mutate(
        &mut self,
        c: &mut Candidates<'_>,
        value: &mut (T0, T1, T2, T3, T4, T5, T6, T7, T8, T9, T10, T11, T12),
    ) -> (r: Result<(), Error>) {
        mutate_four(
            &mut self.m0,
            &mut self.m1,
            &mut self.m2,
            &mut self.m3,
            c,
            &mut value.0,
            &mut value.1,
            &mut value.2,
            &mut value.3,
        )?;
        mutate_four(
            &mut self.m4,
            &mut self.m5,
            &mut self.m6,
            &mut self.m7,
            c,
            &mut value.4,
            &mut value.5,
            &mut value.6,
            &mut value.7,
        )?;
        mutate_four(
            &mut self.m8,
            &mut self.m9,
            &mut self.m10,
            &mut self.m11,
            c,
            &mut value.8,
            &mut value.9,
            &mut value.10,
            &mut value.11,
        )?;
        self.m12.mutate(c, &mut value.12)?;
        Ok(())
    }
}

impl<
    T0: DefaultMutate,
    T1: DefaultMutate,
    T2: DefaultMutate,
    T3: DefaultMutate,
    T4: DefaultMutate,
    T5: DefaultMutate,
    T6: DefaultMutate,
    T7: DefaultMutate,
    T8: DefaultMutate,
    T9: DefaultMutate,
    T10: DefaultMutate,
    T11: DefaultMutate,
    T12: DefaultMutate,
> DefaultMutate for (T0, T1, T2, T3, T4, T5, T6, T7, T8, T9, T10, T11, T12) {
    type DefaultMutate = Tuple13<
        T0::DefaultMutate,
        T1::DefaultMutate,
        T2::DefaultMutate,
        T3::DefaultMutate,
        T4::DefaultMutate,
        T5::DefaultMutate,
        T6::DefaultMutate,
        T7::DefaultMutate,
        T8::DefaultMutate,
        T9::DefaultMutate,
        T10::DefaultMutate,
        T11::DefaultMutate,
        T12::DefaultMutate,
    >;
}

impl<
    M0: Default,
    M1: Default,
    M2: Default,
    M3: Default,
    M4: Default,
    M5: Default,
    M6: Default,
    M7: Default,
    M8: Default,
    M9: Default,
    M10: Default,
    M11: Default,
    M12: Default,
> Default for Tuple13<M0, M1, M2, M3, M4, M5, M6, M7, M8, M9, M10, M11, M12> {
    fn default() -> (m: Self)
        ensures
            call_ensures(M0::default, (), m.m0),
            call_ensures(M1::default, (), m.m1),
            call_ensures(M2::default, (), m.m2),
            call_ensures(M3::default, (), m.m3),
            call_ensures(M4::default, (), m.m4),
            call_ensures(M5::default, (), m.m5),
            call_ensures(M6::default, (), m.m6),
            call_ensures(M7::default, (), m.m7),
            call_ensures(M8::default, (), m.m8),
            call_ensures(M9::default, (), m.m9),
            call_ensures(M10::default, (), m.m10),
            call_ensures(M11::default, (), m.m11),
            call_ensures(M12::default, (), m.m12),
    {
        Tuple13 { 
            m0: M0::default(),
            m1: M1::default(),
            m2: M2::default(),
            m3: M3::default(),
            m4: M4::default(),
            m5: M5::default(),
            m6: M6::default(),
            m7: M7::default(),
            m8: M8::default(),
            m9: M9::default(),
            m10: M10::default(),
            m11: M11::default(),
            m12: M12::default(),
        }
    }
}

/// A mutator for tuples of fourteen elements.
#[derive(Clone, Debug)]
pub struct Tuple14<M0, M1, M2, M3, M4, M5, M6, M7, M8, M9, M10, M11, M12, M13> {
    pub m0: M0,
    pub m1: M1,
    pub m2: M2,
    pub m3: M3,
    pub m4: M4,
    pub m5: M5,
    pub m6: M6,
    pub m7: M7,
    pub m8: M8,
    pub m9: M9,
    pub m10: M10,
    pub m11: M11,
    pub m12: M12,
    pub m13: M13,
}

/// A mutator for tuples of fourteen elements, built on a mutator for each.
pub fn tuple14<M0, M1, M2, M3, M4, M5, M6, M7, M8, M9, M10, M11, M12, M13>(
    m0: M0,
    m1: M1,
    m2: M2,
    m3: M3,
    m4: M4,
    m5: M5,
    m6: M6,
    m7: M7,
    m8: M8,
    m9: M9,
    m10: M10,
    m11: M11,
    m12: M12,
    m13: M13,
) -> (m: Tuple14<M0, M1, M2, M3, M4, M5, M6, M7, M8, M9, M10, M11, M12, M13>)
    ensures
        m.m0 == m0,
        m.m1 == m1,
        m.m2 == m2,
        m.m3 == m3,
        m.m4 == m4,
        m.m5 == m5,
        m.m6 == m6,
        m.m7 == m7,
        m.m8 == m8,
        m.m9 == m9,
        m.m10 == m10,
        m.m11 == m11,
        m.m12 == m12,
        m.m13 == m13,
{
    Tuple14 { m0, m1, m2, m3, m4, m5, m6, m7, m8, m9, m10, m11, m12, m13 }
}

impl<
    M0, T0,
    M1, T1,
    M2, T2,
    M3, T3,
    M4, T4,
    M5, T5,
    M6, T6,
    M7, T7,
    M8, T8,
    M9, T9,
    M10, T10,
    M11, T11,
    M12, T12,
    M13, T13,
> Mutate<
    (T0, T1, T2, T3, T4, T5, T6, T7, T8, T9, T10, T11, T12, T13),
> for Tuple14<M0, M1, M2, M3, M4, M5, M6, M7, M8, M9, M10, M11, M12, M13> where
    M0: Mutate<T0>,
    M1: Mutate<T1>,
    M2: Mutate<T2>,
    M3: Mutate<T3>,
    M4: Mutate<T4>,
    M5: Mutate<T5>,
    M6: Mutate<T6>,
    M7: Mutate<T7>,
    M8: Mutate<T8>,
    M9: Mutate<T9>,
    M10: Mutate<T10>,
    M11: Mutate<T11>,
    M12: Mutate<T12>,
    M13: Mutate<T13>,
 {
    open spec fn wf(&self) -> bool {
        &&& self.m0.wf()
        &&& self.m1.wf()
        &&& self.m2.wf()
        &&& self.m3.wf()
        &&& self.m4.wf()
        &&& self.m5.wf()
        &&& self.m6.wf()
        &&& self.m7.wf()
        &&& self.m8.wf()
        &&& self.m9.wf()
        &&& self.m10.wf()
        &&& self.m11.wf()
        &&& self.m12.wf()
        &&& self.m13.wf()
        &&& self.max_candidates() <= u32::MAX
    }

    open spec fn rejects(
        &self,
        value: (T0, T1, T2, T3, T4, T5, T6, T7, T8, T9, T10, T11, T12, T13),
        shrink: bool,
    ) -> Option<ErrorKind> {
        let group0 = four_rejects(
            self.m0,
            self.m1,
            self.m2,
            self.m3,
            value.0,
            value.1,
            value.2,
            value.3,
            shrink,
        );
        let group1 = four_rejects(
            self.m4,
            self.m5,
            self.m6,
            self.m7,
            value.4,
            value.5,
            value.6,
            value.7,
            shrink,
        );
        let group2 = four_rejects(
            self.m8,
            self.m9,
            self.m10,
            self.m11,
            value.8,
            value.9,
            value.10,
            value.11,
            shrink,
        );
        if group0 is Some {
            group0
        } else if group1 is Some {
            group1
        } else if group2 is Some {
            group2
        } else {
            two_rejects(self.m12, self.m13, value.12, value.13, shrink)
        }
    }

    open spec fn candidates(
        &self,
        value: (T0, T1, T2, T3, T4, T5, T6, T7, T8, T9, T10, T11, T12, T13),
        shrink: bool,
    ) -> nat {
        let group0 = four_candidates(
            self.m0,
            self.m1,
            self.m2,
            self.m3,
            value.0,
            value.1,
            value.2,
            value.3,
            shrink,
        );
        let group1 = four_candidates(
            self.m4,
            self.m5,
            self.m6,
            self.m7,
            value.4,
            value.5,
            value.6,
            value.7,
            shrink,
        );
        let group2 = four_candidates(
            self.m8,
            self.m9,
            self.m10,
            self.m11,
            value.8,
            value.9,
            value.10,
            value.11,
            shrink,
        );
        let group3 = two_candidates(self.m12, self.m13, value.12, value.13, shrink);
        group0 + group1 + group2 + group3
    }

    open spec fn max_candidates(&self) -> nat {
        self.m0.max_candidates() + self.m1.max_candidates() + self.m2.max_candidates()
            + self.m3.max_candidates() + self.m4.max_candidates() + self.m5.max_candidates()
            + self.m6.max_candidates() + self.m7.max_candidates() + self.m8.max_candidates()
            + self.m9.max_candidates() + self.m10.max_candidates() + self.m11.max_candidates()
            + self.m12.max_candidates() + self.m13.max_candidates()
    }

    open spec fn applies(
        &self,
        value: (T0, T1, T2, T3, T4, T5, T6, T7, T8, T9, T10, T11, T12, T13),
        shrink: bool,
        index: nat,
        after: Self,
        new_value: (T0, T1, T2, T3, T4, T5, T6, T7, T8, T9, T10, T11, T12, T13),
        result: Result<(), Error>,
    ) -> bool {
        let end0 = four_candidates(
            self.m0,
            self.m1,
            self.m2,
            self.m3,
            value.0,
            value.1,
            value.2,
            value.3,
            shrink,
        );
        let end1 = end0 + four_candidates(
            self.m4,
            self.m5,
            self.m6,
            self.m7,
            value.4,
            value.5,
            value.6,
            value.7,
            shrink,
        );
        let end2 = end1 + four_candidates(
            self.m8,
            self.m9,
            self.m10,
            self.m11,
            value.8,
            value.9,
            value.10,
            value.11,
            shrink,
        );
        if index < end0 {
            &&& four_applies(
                self.m0,
                self.m1,
                self.m2,
                self.m3,
                value.0,
                value.1,
                value.2,
                value.3,
                shrink,
                index,
                after.m0,
                after.m1,
                after.m2,
                after.m3,
                new_value.0,
                new_value.1,
                new_value.2,
                new_value.3,
                result,
            )
            &&& after.m4 == self.m4 && new_value.4 == value.4
            &&& after.m5 == self.m5 && new_value.5 == value.5
            &&& after.m6 == self.m6 && new_value.6 == value.6
            &&& after.m7 == self.m7 && new_value.7 == value.7
            &&& after.m8 == self.m8 && new_value.8 == value.8
            &&& after.m9 == self.m9 && new_value.9 == value.9
            &&& after.m10 == self.m10 && new_value.10 == value.10
            &&& after.m11 == self.m11 && new_value.11 == value.11
            &&& after.m12 == self.m12 && new_value.12 == value.12
            &&& after.m13 == self.m13 && new_value.13 == value.13
        } else if index < end1 {
            &&& four_applies(
                self.m4,
                self.m5,
                self.m6,
                self.m7,
                value.4,
                value.5,
                value.6,
                value.7,
                shrink,
                (index - end0) as nat,
                after.m4,
                after.m5,
                after.m6,
                after.m7,
                new_value.4,
                new_value.5,
                new_value.6,
                new_value.7,
                result,
            )
            &&& after.m0 == self.m0 && new_value.0 == value.0
            &&& after.m1 == self.m1 && new_value.1 == value.1
            &&& after.m2 == self.m2 && new_value.2 == value.2
            &&& after.m3 == self.m3 && new_value.3 == value.3
            &&& after.m8 == self.m8 && new_value.8 == value.8
            &&& after.m9 == self.m9 && new_value.9 == value.9
            &&& after.m10 == self.m10 && new_value.10 == value.10
            &&& after.m11 == self.m11 && new_value.11 == value.11
            &&& after.m12 == self.m12 && new_value.12 == value.12
            &&& after.m13 == self.m13 && new_value.13 == value.13
        } else if index < end2 {
            &&& four_applies(
                self.m8,
                self.m9,
                self.m10,
                self.m11,
                value.8,
                value.9,
                value.10,
                value.11,
                shrink,
                (index - end1) as nat,
                after.m8,
                after.m9,
                after.m10,
                after.m11,
                new_value.8,
                new_value.9,
                new_value.10,
                new_value.11,
                result,
            )
            &&& after.m0 == self.m0 && new_value.0 == value.0
            &&& after.m1 == self.m1 && new_value.1 == value.1
            &&& after.m2 == self.m2 && new_value.2 == value.2
            &&& after.m3 == self.m3 && new_value.3 == value.3
            &&& after.m4 == self.m4 && new_value.4 == value.4
            &&& after.m5 == self.m5 && new_value.5 == value.5
            &&& after.m6 == self.m6 && new_value.6 == value.6
            &&& after.m7 == self.m7 && new_value.7 == value.7
            &&& after.m12 == self.m12 && new_value.12 == value.12
            &&& after.m13 == self.m13 && new_value.13 == value.13
        } else {
            &&& two_applies(
                self.m12,
                self.m13,
                value.12,
                value.13,
                shrink,
                (index - end2) as nat,
                after.m12,
                after.m13,
                new_value.12,
                new_value.13,
                result,
            )
            &&& after.m0 == self.m0 && new_value.0 == value.0
            &&& after.m1 == self.m1 && new_value.1 == value.1
            &&& after.m2 == self.m2 && new_value.2 == value.2
            &&& after.m3 == self.m3 && new_value.3 == value.3
            &&& after.m4 == self.m4 && new_value.4 == value.4
            &&& after.m5 == self.m5 && new_value.5 == value.5
            &&& after.m6 == self.m6 && new_value.6 == value.6
            &&& after.m7 == self.m7 && new_value.7 == value.7
            &&& after.m8 == self.m8 && new_value.8 == value.8
            &&& after.m9 == self.m9 && new_value.9 == value.9
            &&& after.m10 == self.m10 && new_value.10 == value.10
            &&& after.m11 == self.m11 && new_value.11 == value.11
        }
    }

    #[verifier::rlimit(50)]
    fn mutate(
        &mut self,
        c: &mut Candidates<'_>,
        value: &mut (T0, T1, T2, T3, T4, T5, T6, T7, T8, T9, T10, T11, T12, T13),
    ) -> (r: Result<(), Error>) {
        mutate_four(
            &mut self.m0,
            &mut self.m1,
            &mut self.m2,
            &mut self.m3,
            c,
            &mut value.0,
            &mut value.1,
            &mut value.2,
            &mut value.3,
        )?;
        mutate_four(
            &mut self.m4,
            &mut self.m5,
            &mut self.m6,
            &mut self.m7,
            c,
            &mut value.4,
            &mut value.5,
            &mut value.6,
            &mut value.7,
        )?;
        mutate_four(
            &mut self.m8,
            &mut self.m9,
            &mut self.m10,
            &mut self.m11,
            c,
            &mut value.8,
            &mut value.9,
            &mut value.10,
            &mut value.11,
        )?;
        mutate_two(&mut self.m12, &mut self.m13, c, &mut value.12, &mut value.13)?;
        Ok(())
    }
}

impl<
    T0: DefaultMutate,
    T1: DefaultMutate,
    T2: DefaultMutate,
    T3: DefaultMutate,
    T4: DefaultMutate,
    T5: DefaultMutate,
    T6: DefaultMutate,
    T7: DefaultMutate,
    T8: DefaultMutate,
    T9: DefaultMutate,
    T10: DefaultMutate,
    T11: DefaultMutate,
    T12: DefaultMutate,
    T13: DefaultMutate,
> DefaultMutate for (T0, T1, T2, T3, T4, T5, T6, T7, T8, T9, T10, T11, T12, T13) {
    type DefaultMutate = Tuple14<
        T0::DefaultMutate,
        T1::DefaultMutate,
        T2::DefaultMutate,
        T3::DefaultMutate,
        T4::DefaultMutate,
        T5::DefaultMutate,
        T6::DefaultMutate,
        T7::DefaultMutate,
        T8::DefaultMutate,
        T9::DefaultMutate,
        T10::DefaultMutate,
        T11::DefaultMutate,
        T12::DefaultMutate,
        T13::DefaultMutate,
    >;
}

impl<
    M0: Default,
    M1: Default,
    M2: Default,
    M3: Default,
    M4: Default,
    M5: Default,
    M6: Default,
    M7: Default,
    M8: Default,
    M9: Default,
    M10: Default,
    M11: Default,
    M12: Default,
    M13: Default,
> Default for Tuple14<M0, M1, M2, M3, M4, M5, M6, M7, M8, M9, M10, M11, M12, M13> {
    fn default() -> (m: Self)
        ensures
            call_ensures(M0::default, (), m.m0),
            call_ensures(M1::default, (), m.m1),
            call_ensures(M2::default, (), m.m2),
            call_ensures(M3::default, (), m.m3),
            call_ensures(M4::default, (), m.m4),
            call_ensures(M5::default, (), m.m5),
            call_ensures(M6::default, (), m.m6),
            call_ensures(M7::default, (), m.m7),
            call_ensures(M8::default, (), m.m8),
            call_ensures(M9::default, (), m.m9),
            call_ensures(M10::default, (), m.m10),
            call_ensures(M11::default, (), m.m11),
            call_ensures(M12::default, (), m.m12),
            call_ensures(M13::default, (), m.m13),
    {
        Tuple14 { 
            m0: M0::default(),
            m1: M1::default(),
            m2: M2::default(),
            m3: M3::default(),
            m4: M4::default(),
            m5: M5::default(),
            m6: M6::default(),
            m7: M7::default(),
            m8: M8::default(),
            m9: M9::default(),
            m10: M10::default(),
            m11: M11::default(),
            m12: M12::default(),
            m13: M13::default(),
        }
    }
}

/// A mutator for tuples of fifteen elements.
#[derive(Clone, Debug)]
pub struct Tuple15<M0, M1, M2, M3, M4, M5, M6, M7, M8, M9, M10, M11, M12, M13, M14> {
    pub m0: M0,
    pub m1: M1,
    pub m2: M2,
    pub m3: M3,
    pub m4: M4,
    pub m5: M5,
    pub m6: M6,
    pub m7: M7,
    pub m8: M8,
    pub m9: M9,
    pub m10: M10,
    pub m11: M11,
    pub m12: M12,
    pub m13: M13,
    pub m14: M14,
}

/// A mutator for tuples of fifteen elements, built on a mutator for each.
pub fn tuple15<M0, M1, M2, M3, M4, M5, M6, M7, M8, M9, M10, M11, M12, M13, M14>(
    m0: M0,
    m1: M1,
    m2: M2,
    m3: M3,
    m4: M4,
    m5: M5,
    m6: M6,
    m7: M7,
    m8: M8,
    m9: M9,
    m10: M10,
    m11: M11,
    m12: M12,
    m13: M13,
    m14: M14,
) -> (m: Tuple15<M0, M1, M2, M3, M4, M5, M6, M7, M8, M9, M10, M11, M12, M13, M14>)
    ensures
        m.m0 == m0,
        m.m1 == m1,
        m.m2 == m2,
        m.m3 == m3,
        m.m4 == m4,
        m.m5 == m5,
        m.m6 == m6,
        m.m7 == m7,
        m.m8 == m8,
        m.m9 == m9,
        m.m10 == m10,
        m.m11 == m11,
        m.m12 == m12,
        m.m13 == m13,
        m.m14 == m14,
{
    Tuple15 { m0, m1, m2, m3, m4, m5, m6, m7, m8, m9, m10, m11, m12, m13, m14 }
}

impl<
    M0, T0,
    M1, T1,
    M2, T2,
    M3, T3,
    M4, T4,
    M5, T5,
    M6, T6,
    M7, T7,
    M8, T8,
    M9, T9,
    M10, T10,
    M11, T11,
    M12, T12,
    M13, T13,
    M14, T14,
> Mutate<
    (T0, T1, T2, T3, T4, T5, T6, T7, T8, T9, T10, T11, T12, T13, T14),
> for Tuple15<M0, M1, M2, M3, M4, M5, M6, M7, M8, M9, M10, M11, M12, M13, M14> where
    M0: Mutate<T0>,
    M1: Mutate<T1>,
    M2: Mutate<T2>,
    M3: Mutate<T3>,
    M4: Mutate<T4>,
    M5: Mutate<T5>,
    M6: Mutate<T6>,
    M7: Mutate<T7>,
    M8: Mutate<T8>,
    M9: Mutate<T9>,
    M10: Mutate<T10>,
    M11: Mutate<T11>,
    M12: Mutate<T12>,
    M13: Mutate<T13>,
    M14: Mutate<T14>,
 {
    open spec fn wf(&self) -> bool {
        &&& self.m0.wf()
        &&& self.m1.wf()
        &&& self.m2.wf()
        &&& self.m3.wf()
        &&& self.m4.wf()
        &&& self.m5.wf()
        &&& self.m6.wf()
        &&& self.m7.wf()
        &&& self.m8.wf()
        &&& self.m9.wf()
        &&& self.m10.wf()
        &&& self.m11.wf()
        &&& self.m12.wf()
        &&& self.m13.wf()
        &&& self.m14.wf()
        &&& self.max_candidates() <= u32::MAX
    }

    open spec fn rejects(
        &self,
        value: (T0, T1, T2, T3, T4, T5, T6, T7, T8, T9, T10, T11, T12, T13, T14),
        shrink: bool,
    ) -> Option<ErrorKind> {
        let group0 = four_rejects(
            self.m0,
            self.m1,
            self.m2,
            self.m3,
            value.0,
            value.1,
            value.2,
            value.3,
            shrink,
        );
        let group1 = four_rejects(
            self.m4,
            self.m5,
            self.m6,
            self.m7,
            value.4,
            value.5,
            value.6,
            value.7,
            shrink,
        );
        let group2 = four_rejects(
            self.m8,
            self.m9,
            self.m10,
            self.m11,
            value.8,
            value.9,
            value.10,
            value.11,
            shrink,
        );
        if group0 is Some {
            group0
        } else if group1 is Some {
            group1
        } else if group2 is Some {
            group2
        } else {
            three_rejects(self.m12, self.m13, self.m14, value.12, value.13, value.14, shrink)
        }
    }

    open spec fn candidates(
        &self,
        value: (T0, T1, T2, T3, T4, T5, T6, T7, T8, T9, T10, T11, T12, T13, T14),
        shrink: bool,
    ) -> nat {
        let group0 = four_candidates(
            self.m0,
            self.m1,
            self.m2,
            self.m3,
            value.0,
            value.1,
            value.2,
            value.3,
            shrink,
        );
        let group1 = four_candidates(
            self.m4,
            self.m5,
            self.m6,
            self.m7,
            value.4,
            value.5,
            value.6,
            value.7,
            shrink,
        );
        let group2 = four_candidates(
            self.m8,
            self.m9,
            self.m10,
            self.m11,
            value.8,
            value.9,
            value.10,
            value.11,
            shrink,
        );
        let group3 = three_candidates(
            self.m12,
            self.m13,
            self.m14,
            value.12,
            value.13,
            value.14,
            shrink,
        );
        group0 + group1 + group2 + group3
    }

    open spec fn max_candidates(&self) -> nat {
        self.m0.max_candidates() + self.m1.max_candidates() + self.m2.max_candidates()
            + self.m3.max_candidates() + self.m4.max_candidates() + self.m5.max_candidates()
            + self.m6.max_candidates() + self.m7.max_candidates() + self.m8.max_candidates()
            + self.m9.max_candidates() + self.m10.max_candidates() + self.m11.max_candidates()
            + self.m12.max_candidates() + self.m13.max_candidates() + self.m14.max_candidates()
    }

    open spec fn applies(
        &self,
        value: (T0, T1, T2, T3, T4, T5, T6, T7, T8, T9, T10, T11, T12, T13, T14),
        shrink: bool,
        index: nat,
        after: Self,
        new_value: (T0, T1, T2, T3, T4, T5, T6, T7, T8, T9, T10, T11, T12, T13, T14),
        result: Result<(), Error>,
    ) -> bool {
        let end0 = four_candidates(
            self.m0,
            self.m1,
            self.m2,
            self.m3,
            value.0,
            value.1,
            value.2,
            value.3,
            shrink,
        );
        let end1 = end0 + four_candidates(
            self.m4,
            self.m5,
            self.m6,
            self.m7,
            value.4,
            value.5,
            value.6,
            value.7,
            shrink,
        );
        let end2 = end1 + four_candidates(
            self.m8,
            self.m9,
            self.m10,
            self.m11,
            value.8,
            value.9,
            value.10,
            value.11,
            shrink,
        );
        if index < end0 {
            &&& four_applies(
                self.m0,
                self.m1,
                self.m2,
                self.m3,
                value.0,
                value.1,
                value.2,
                value.3,
                shrink,
                index,
                after.m0,
                after.m1,
                after.m2,
                after.m3,
                new_value.0,
                new_value.1,
                new_value.2,
                new_value.3,
                result,
            )
            &&& after.m4 == self.m4 && new_value.4 == value.4
            &&& after.m5 == self.m5 && new_value.5 == value.5
            &&& after.m6 == self.m6 && new_value.6 == value.6
            &&& after.m7 == self.m7 && new_value.7 == value.7
            &&& after.m8 == self.m8 && new_value.8 == value.8
            &&& after.m9 == self.m9 && new_value.9 == value.9
            &&& after.m10 == self.m10 && new_value.10 == value.10
            &&& after.m11 == self.m11 && new_value.11 == value.11
            &&& after.m12 == self.m12 && new_value.12 == value.12
            &&& after.m13 == self.m13 && new_value.13 == value.13
            &&& after.m14 == self.m14 && new_value.14 == value.14
        } else if index < end1 {
            &&& four_applies(
                self.m4,
                self.m5,
                self.m6,
                self.m7,
                value.4,
                value.5,
                value.6,
                value.7,
                shrink,
                (index - end0) as nat,
                after.m4,
                after.m5,
                after.m6,
                after.m7,
                new_value.4,
                new_value.5,
                new_value.6,
                new_value.7,
                result,
            )
            &&& after.m0 == self.m0 && new_value.0 == value.0
            &&& after.m1 == self.m1 && new_value.1 == value.1
            &&& after.m2 == self.m2 && new_value.2 == value.2
            &&& after.m3 == self.m3 && new_value.3 == value.3
            &&& after.m8 == self.m8 && new_value.8 == value.8
            &&& after.m9 == self.m9 && new_value.9 == value.9
            &&& after.m10 == self.m10 && new_value.10 == value.10
            &&& after.m11 == self.m11 && new_value.11 == value.11
            &&& after.m12 == self.m12 && new_value.12 == value.12
            &&& after.m13 == self.m13 && new_value.13 == value.13
            &&& after.m14 == self.m14 && new_value.14 == value.14
        } else if index < end2 {
            &&& four_applies(
                self.m8,
                self.m9,
                self.m10,
                self.m11,
                value.8,
                value.9,
                value.10,
                value.11,
                shrink,
                (index - end1) as nat,
                after.m8,
                after.m9,
                after.m10,
                after.m11,
                new_value.8,
                new_value.9,
                new_value.10,
                new_value.11,
                result,
            )
            &&& after.m0 == self.m0 && new_value.0 == value.0
            &&& after.m1 == self.m1 && new_value.1 == value.1
            &&& after.m2 == self.m2 && new_value.2 == value.2
            &&& after.m3 == self.m3 && new_value.3 == value.3
            &&& after.m4 == self.m4 && new_value.4 == value.4
            &&& after.m5 == self.m5 && new_value.5 == value.5
            &&& after.m6 == self.m6 && new_value.6 == value.6
            &&& after.m7 == self.m7 && new_value.7 == value.7
            &&& after.m12 == self.m12 && new_value.12 == value.12
            &&& after.m13 == self.m13 && new_value.13 == value.13
            &&& after.m14 == self.m14 && new_value.14 == value.14
        } else {
            &&& three_applies(
                self.m12,
                self.m13,
                self.m14,
                value.12,
                value.13,
                value.14,
                shrink,
                (index - end2) as nat,
                after.m12,
                after.m13,
                after.m14,
                new_value.12,
                new_value.13,
                new_value.14,
                result,
            )
            &&& after.m0 == self.m0 && new_value.0 == value.0
            &&& after.m1 == self.m1 && new_value.1 == value.1
            &&& after.m2 == self.m2 && new_value.2 == value.2
            &&& after.m3 == self.m3 && new_value.3 == value.3
            &&& after.m4 == self.m4 && new_value.4 == value.4
            &&& after.m5 == self.m5 && new_value.5 == value.5
            &&& after.m6 == self.m6 && new_value.6 == value.6
            &&& after.m7 == self.m7 && new_value.7 == value.7
            &&& after.m8 == self.m8 && new_value.8 == value.8
            &&& after.m9 == self.m9 && new_value.9 == value.9
            &&& after.m10 == self.m10 && new_value.10 == value.10
            &&& after.m11 == self.m11 && new_value.11 == value.11
        }
    }

    #[verifier::rlimit(50)]
    fn mutate(
        &mut self,
        c: &mut Candidates<'_>,
        value: &mut (T0, T1, T2, T3, T4, T5, T6, T7, T8, T9, T10, T11, T12, T13, T14),
    ) -> (r: Result<(), Error>) {
        mutate_four(
            &mut self.m0,
            &mut self.m1,
            &mut self.m2,
            &mut self.m3,
            c,
            &mut value.0,
            &mut value.1,
            &mut value.2,
            &mut value.3,
        )?;
        mutate_four(
            &mut self.m4,
            &mut self.m5,
            &mut self.m6,
            &mut self.m7,
            c,
            &mut value.4,
            &mut value.5,
            &mut value.6,
            &mut value.7,
        )?;
        mutate_four(
            &mut self.m8,
            &mut self.m9,
            &mut self.m10,
            &mut self.m11,
            c,
            &mut value.8,
            &mut value.9,
            &mut value.10,
            &mut value.11,
        )?;
        mutate_three(
            &mut self.m12,
            &mut self.m13,
            &mut self.m14,
            c,
            &mut value.12,
            &mut value.13,
            &mut value.14,
        )?;
        Ok(())
    }
}

impl<
    T0: DefaultMutate,
    T1: DefaultMutate,
    T2: DefaultMutate,
    T3: DefaultMutate,
    T4: DefaultMutate,
    T5: DefaultMutate,
    T6: DefaultMutate,
    T7: DefaultMutate,
    T8: DefaultMutate,
    T9: DefaultMutate,
    T10: DefaultMutate,
    T11: DefaultMutate,
    T12: DefaultMutate,
    T13: DefaultMutate,
    T14: DefaultMutate,
> DefaultMutate for (T0, T1, T2, T3, T4, T5, T6, T7, T8, T9, T10, T11, T12, T13, T14) {
    type DefaultMutate = Tuple15<
        T0::DefaultMutate,
        T1::DefaultMutate,
        T2::DefaultMutate,
        T3::DefaultMutate,
        T4::DefaultMutate,
        T5::DefaultMutate,
        T6::DefaultMutate,
        T7::DefaultMutate,
        T8::DefaultMutate,
        T9::DefaultMutate,
        T10::DefaultMutate,
        T11::DefaultMutate,
        T12::DefaultMutate,
        T13::DefaultMutate,
        T14::DefaultMutate,
    >;
}

impl<
    M0: Default,
    M1: Default,
    M2: Default,
    M3: Default,
    M4: Default,
    M5: Default,
    M6: Default,
    M7: Default,
    M8: Default,
    M9: Default,
    M10: Default,
    M11: Default,
    M12: Default,
    M13: Default,
    M14: Default,
> Default for Tuple15<M0, M1, M2, M3, M4, M5, M6, M7, M8, M9, M10, M11, M12, M13, M14> {
    fn default() -> (m: Self)
        ensures
            call_ensures(M0::default, (), m.m0),
            call_ensures(M1::default, (), m.m1),
            call_ensures(M2::default, (), m.m2),
            call_ensures(M3::default, (), m.m3),
            call_ensures(M4::default, (), m.m4),
            call_ensures(M5::default, (), m.m5),
            call_ensures(M6::default, (), m.m6),
            call_ensures(M7::default, (), m.m7),
            call_ensures(M8::default, (), m.m8),
            call_ensures(M9::default, (), m.m9),
            call_ensures(M10::default, (), m.m10),
            call_ensures(M11::default, (), m.m11),
            call_ensures(M12::default, (), m.m12),
            call_ensures(M13::default, (), m.m13),
            call_ensures(M14::default, (), m.m14),
    {
        Tuple15 { 
            m0: M0::default(),
            m1: M1::default(),
            m2: M2::default(),
            m3: M3::default(),
            m4: M4::default(),
            m5: M5::default(),
            m6: M6::default(),
            m7: M7::default(),
            m8: M8::default(),
            m9: M9::default(),
            m10: M10::default(),
            m11: M11::default(),
            m12: M12::default(),
            m13: M13::default(),
            m14: M14::default(),
        }
    }
}

/// A mutator for tuples of sixteen elements.
#[derive(Clone, Debug)]
pub struct Tuple16<M0, M1, M2, M3, M4, M5, M6, M7, M8, M9, M10, M11, M12, M13, M14, M15> {
    pub m0: M0,
    pub m1: M1,
    pub m2: M2,
    pub m3: M3,
    pub m4: M4,
    pub m5: M5,
    pub m6: M6,
    pub m7: M7,
    pub m8: M8,
    pub m9: M9,
    pub m10: M10,
    pub m11: M11,
    pub m12: M12,
    pub m13: M13,
    pub m14: M14,
    pub m15: M15,
}

/// A mutator for tuples of sixteen elements, built on a mutator for each.
pub fn tuple16<M0, M1, M2, M3, M4, M5, M6, M7, M8, M9, M10, M11, M12, M13, M14, M15>(
    m0: M0,
    m1: M1,
    m2: M2,
    m3: M3,
    m4: M4,
    m5: M5,
    m6: M6,
    m7: M7,
    m8: M8,
    m9: M9,
    m10: M10,
    m11: M11,
    m12: M12,
    m13: M13,
    m14: M14,
    m15: M15,
) -> (m: Tuple16<M0, M1, M2, M3, M4, M5, M6, M7, M8, M9, M10, M11, M12, M13, M14, M15>)
    ensures
        m.m0 == m0,
        m.m1 == m1,
        m.m2 == m2,
        m.m3 == m3,
        m.m4 == m4,
        m.m5 == m5,
        m.m6 == m6,
        m.m7 == m7,
        m.m8 == m8,
        m.m9 == m9,
        m.m10 == m10,
        m.m11 == m11,
        m.m12 == m12,
        m.m13 == m13,
        m.m14 == m14,
        m.m15 == m15,
{
    Tuple16 { m0, m1, m2, m3, m4, m5, m6, m7, m8, m9, m10, m11, m12, m13, m14, m15 }
}

impl<
    M0, T0,
    M1, T1,
    M2, T2,
    M3, T3,
    M4, T4,
    M5, T5,
    M6, T6,
    M7, T7,
    M8, T8,
    M9, T9,
    M10, T10,
    M11, T11,
    M12, T12,
    M13, T13,
    M14, T14,
    M15, T15,
> Mutate<
    (T0, T1, T2, T3, T4, T5, T6, T7, T8, T9, T10, T11, T12, T13, T14, T15),
> for Tuple16<M0, M1, M2, M3, M4, M5, M6, M7, M8, M9, M10, M11, M12, M13, M14, M15> where
    M0: Mutate<T0>,
    M1: Mutate<T1>,
    M2: Mutate<T2>,
    M3: Mutate<T3>,
    M4: Mutate<T4>,
    M5: Mutate<T5>,
    M6: Mutate<T6>,
    M7: Mutate<T7>,
    M8: Mutate<T8>,
    M9: Mutate<T9>,
    M10: Mutate<T10>,
    M11: Mutate<T11>,
    M12: Mutate<T12>,
    M13: Mutate<T13>,
    M14: Mutate<T14>,
    M15: Mutate<T15>,
 {
    open spec fn wf(&self) -> bool {
        &&& self.m0.wf()
        &&& self.m1.wf()
        &&& self.m2.wf()
        &&& self.m3.wf()
        &&& self.m4.wf()
        &&& self.m5.wf()
        &&& self.m6.wf()
        &&& self.m7.wf()
        &&& self.m8.wf()
        &&& self.m9.wf()
        &&& self.m10.wf()
        &&& self.m11.wf()
        &&& self.m12.wf()
        &&& self.m13.wf()
        &&& self.m14.wf()
        &&& self.m15.wf()
        &&& self.max_candidates() <= u32::MAX
    }

    open spec fn rejects(
        &self,
        value: (T0, T1, T2, T3, T4, T5, T6, T7, T8, T9, T10, T11, T12, T13, T14, T15),
        shrink: bool,
    ) -> Option<ErrorKind> {
        let group0 = four_rejects(
            self.m0,
            self.m1,
            self.m2,
            self.m3,
            value.0,
            value.1,
            value.2,
            value.3,
            shrink,
        );
        let group1 = four_rejects(
            self.m4,
            self.m5,
            self.m6,
            self.m7,
            value.4,
            value.5,
            value.6,
            value.7,
            shrink,
        );
        let group2 = four_rejects(
            self.m8,
            self.m9,
            self.m10,
            self.m11,
            value.8,
            value.9,
            value.10,
            value.11,
            shrink,
        );
        if group0 is Some {
            group0
        } else if group1 is Some {
            group1
        } else if group2 is Some {
            group2
        } else {
            four_rejects(
                self.m12,
                self.m13,
                self.m14,
                self.m15,
                value.12,
                value.13,
                value.14,
                value.15,
                shrink,
            )
        }
    }

    open spec fn candidates(
        &self,
        value: (T0, T1, T2, T3, T4, T5, T6, T7, T8, T9, T10, T11, T12, T13, T14, T15),
        shrink: bool,
    ) -> nat {
        let group0 = four_candidates(
            self.m0,
            self.m1,
            self.m2,
            self.m3,
            value.0,
            value.1,
            value.2,
            value.3,
            shrink,
        );
        let group1 = four_candidates(
            self.m4,
            self.m5,
            self.m6,
            self.m7,
            value.4,
            value.5,
            value.6,
            value.7,
            shrink,
        );
        let group2 = four_candidates(
            self.m8,
            self.m9,
            self.m10,
            self.m11,
            value.8,
            value.9,
            value.10,
            value.11,
            shrink,
        );
        let group3 = four_candidates(
            self.m12,
            self.m13,
            self.m14,
            self.m15,
            value.12,
            value.13,
            value.14,
            value.15,
            shrink,
        );
        group0 + group1 + group2 + group3
    }

    open spec fn max_candidates(&self) -> nat {
        self.m0.max_candidates() + self.m1.max_candidates() + self.m2.max_candidates()
            + self.m3.max_candidates() + self.m4.max_candidates() + self.m5.max_candidates()
            + self.m6.max_candidates() + self.m7.max_candidates() + self.m8.max_candidates()
            + self.m9.max_candidates() + self.m10.max_candidates() + self.m11.max_candidates()
            + self.m12.max_candidates() + self.m13.max_candidates() + self.m14.max_candidates()
            + self.m15.max_candidates()
    }

    open spec fn applies(
        &self,
        value: (T0, T1, T2, T3, T4, T5, T6, T7, T8, T9, T10, T11, T12, T13, T14, T15),
        shrink: bool,
        index: nat,
        after: Self,
        new_value: (T0, T1, T2, T3, T4, T5, T6, T7, T8, T9, T10, T11, T12, T13, T14, T15),
        result: Result<(), Error>,
    ) -> bool {
        let end0 = four_candidates(
            self.m0,
            self.m1,
            self.m2,
            self.m3,
            value.0,
            value.1,
            value.2,
            value.3,
            shrink,
        );
        let end1 = end0 + four_candidates(
            self.m4,
            self.m5,
            self.m6,
            self.m7,
            value.4,
            value.5,
            value.6,
            value.7,
            shrink,
        );
        let end2 = end1 + four_candidates(
            self.m8,
            self.m9,
            self.m10,
            self.m11,
            value.8,
            value.9,
            value.10,
            value.11,
            shrink,
        );
        if index < end0 {
            &&& four_applies(
                self.m0,
                self.m1,
                self.m2,
                self.m3,
                value.0,
                value.1,
                value.2,
                value.3,
                shrink,
                index,
                after.m0,
                after.m1,
                after.m2,
                after.m3,
                new_value.0,
                new_value.1,
                new_value.2,
                new_value.3,
                result,
            )
            &&& after.m4 == self.m4 && new_value.4 == value.4
            &&& after.m5 == self.m5 && new_value.5 == value.5
            &&& after.m6 == self.m6 && new_value.6 == value.6
            &&& after.m7 == self.m7 && new_value.7 == value.7
            &&& after.m8 == self.m8 && new_value.8 == value.8
            &&& after.m9 == self.m9 && new_value.9 == value.9
            &&& after.m10 == self.m10 && new_value.10 == value.10
            &&& after.m11 == self.m11 && new_value.11 == value.11
            &&& after.m12 == self.m12 && new_value.12 == value.12
            &&& after.m13 == self.m13 && new_value.13 == value.13
            &&& after.m14 == self.m14 && new_value.14 == value.14
            &&& after.m15 == self.m15 && new_value.15 == value.15
        } else if index < end1 {
            &&& four_applies(
                self.m4,
                self.m5,
                self.m6,
                self.m7,
                value.4,
                value.5,
                value.6,
                value.7,
                shrink,
                (index - end0) as nat,
                after.m4,
                after.m5,
                after.m6,
                after.m7,
                new_value.4,
                new_value.5,
                new_value.6,
                new_value.7,
                result,
            )
            &&& after.m0 == self.m0 && new_value.0 == value.0
            &&& after.m1 == self.m1 && new_value.1 == value.1
            &&& after.m2 == self.m2 && new_value.2 == value.2
            &&& after.m3 == self.m3 && new_value.3 == value.3
            &&& after.m8 == self.m8 && new_value.8 == value.8
            &&& after.m9 == self.m9 && new_value.9 == value.9
            &&& after.m10 == self.m10 && new_value.10 == value.10
            &&& after.m11 == self.m11 && new_value.11 == value.11
            &&& after.m12 == self.m12 && new_value.12 == value.12
            &&& after.m13 == self.m13 && new_value.13 == value.13
            &&& after.m14 == self.m14 && new_value.14 == value.14
            &&& after.m15 == self.m15 && new_value.15 == value.15
        } else if index < end2 {
            &&& four_applies(
                self.m8,
                self.m9,
                self.m10,
                self.m11,
                value.8,
                value.9,
                value.10,
                value.11,
                shrink,
                (index - end1) as nat,
                after.m8,
                after.m9,
                after.m10,
                after.m11,
                new_value.8,
                new_value.9,
                new_value.10,
                new_value.11,
                result,
            )
            &&& after.m0 == self.m0 && new_value.0 == value.0
            &&& after.m1 == self.m1 && new_value.1 == value.1
            &&& after.m2 == self.m2 && new_value.2 == value.2
            &&& after.m3 == self.m3 && new_value.3 == value.3
            &&& after.m4 == self.m4 && new_value.4 == value.4
            &&& after.m5 == self.m5 && new_value.5 == value.5
            &&& after.m6 == self.m6 && new_value.6 == value.6
            &&& after.m7 == self.m7 && new_value.7 == value.7
            &&& after.m12 == self.m12 && new_value.12 == value.12
            &&& after.m13 == self.m13 && new_value.13 == value.13
            &&& after.m14 == self.m14 && new_value.14 == value.14
            &&& after.m15 == self.m15 && new_value.15 == value.15
        } else {
            &&& four_applies(
                self.m12,
                self.m13,
                self.m14,
                self.m15,
                value.12,
                value.13,
                value.14,
                value.15,
                shrink,
                (index - end2) as nat,
                after.m12,
                after.m13,
                after.m14,
                after.m15,
                new_value.12,
                new_value.13,
                new_value.14,
                new_value.15,
                result,
            )
            &&& after.m0 == self.m0 && new_value.0 == value.0
            &&& after.m1 == self.m1 && new_value.1 == value.1
            &&& after.m2 == self.m2 && new_value.2 == value.2
            &&& after.m3 == self.m3 && new_value.3 == value.3
            &&& after.m4 == self.m4 && new_value.4 == value.4
            &&& after.m5 == self.m5 && new_value.5 == value.5
            &&& after.m6 == self.m6 && new_value.6 == value.6
            &&& after.m7 == self.m7 && new_value.7 == value.7
            &&& after.m8 == self.m8 && new_value.8 == value.8
            &&& after.m9 == self.m9 && new_value.9 == value.9
            &&& after.m10 == self.m10 && new_value.10 == value.10
            &&& after.m11 == self.m11 && new_value.11 == value.11
        }
    }

    #[verifier::rlimit(50)]
    fn mutate(
        &mut self,
        c: &mut Candidates<'_>,
        value: &mut (T0, T1, T2, T3, T4, T5, T6, T7, T8, T9, T10, T11, T12, T13, T14, T15),
    ) -> (r: Result<(), Error>) {
        mutate_four(
            &mut self.m0,
            &mut self.m1,
            &mut self.m2,
            &mut self.m3,
            c,
            &mut value.0,
            &mut value.1,
            &mut value.2,
            &mut value.3,
        )?;
        mutate_four(
            &mut self.m4,
            &mut self.m5,
            &mut self.m6,
            &mut self.m7,
            c,
            &mut value.4,
            &mut value.5,
            &mut value.6,
            &mut value.7,
        )?;
        mutate_four(
            &mut self.m8,
            &mut self.m9,
            &mut self.m10,
            &mut self.m11,
            c,
            &mut value.8,
            &mut value.9,
            &mut value.10,
            &mut value.11,
        )?;
        mutate_four(
            &mut self.m12,
            &mut self.m13,
            &mut self.m14,
            &mut self.m15,
            c,
            &mut value.12,
            &mut value.13,
            &mut value.14,
            &mut value.15,
        )?;
        Ok(())
    }
}

impl<
    T0: DefaultMutate,
    T1: DefaultMutate,
    T2: DefaultMutate,
    T3: DefaultMutate,
    T4: DefaultMutate,
    T5: DefaultMutate,
    T6: DefaultMutate,
    T7: DefaultMutate,
    T8: DefaultMutate,
    T9: DefaultMutate,
    T10: DefaultMutate,
    T11: DefaultMutate,
    T12: DefaultMutate,
    T13: DefaultMutate,
    T14: DefaultMutate,
    T15: DefaultMutate,
> DefaultMutate for (T0, T1, T2, T3, T4, T5, T6, T7, T8, T9, T10, T11, T12, T13, T14, T15) {
    type DefaultMutate = Tuple16<
        T0::DefaultMutate,
        T1::DefaultMutate,
        T2::DefaultMutate,
        T3::DefaultMutate,
        T4::DefaultMutate,
        T5::DefaultMutate,
        T6::DefaultMutate,
        T7::DefaultMutate,
        T8::DefaultMutate,
        T9::DefaultMutate,
        T10::DefaultMutate,
        T11::DefaultMutate,
        T12::DefaultMutate,
        T13::DefaultMutate,
        T14::DefaultMutate,
        T15::DefaultMutate,
    >;
}

impl<
    M0: Default,
    M1: Default,
    M2: Default,
    M3: Default,
    M4: Default,
    M5: Default,
    M6: Default,
    M7: Default,
    M8: Default,
    M9: Default,
    M10: Default,
    M11: Default,
    M12: Default,
    M13: Default,
    M14: Default,
    M15: Default,
> Default for Tuple16<M0, M1, M2, M3, M4, M5, M6, M7, M8, M9, M10, M11, M12, M13, M14, M15> {
    fn default() -> (m: Self)
        ensures
            call_ensures(M0::default, (), m.m0),
            call_ensures(M1::default, (), m.m1),
            call_ensures(M2::default, (), m.m2),
            call_ensures(M3::default, (), m.m3),
            call_ensures(M4::default, (), m.m4),
            call_ensures(M5::default, (), m.m5),
            call_ensures(M6::default, (), m.m6),
            call_ensures(M7::default, (), m.m7),
            call_ensures(M8::default, (), m.m8),
            call_ensures(M9::default, (), m.m9),
            call_ensures(M10::default, (), m.m10),
            call_ensures(M11::default, (), m.m11),
            call_ensures(M12::default, (), m.m12),
            call_ensures(M13::default, (), m.m13),
            call_ensures(M14::default, (), m.m14),
            call_ensures(M15::default, (), m.m15),
    {
        Tuple16 { 
            m0: M0::default(),
            m1: M1::default(),
            m2: M2::default(),
            m3: M3::default(),
            m4: M4::default(),
            m5: M5::default(),
            m6: M6::default(),
            m7: M7::default(),
            m8: M8::default(),
            m9: M9::default(),
            m10: M10::default(),
            m11: M11::default(),
            m12: M12::default(),
            m13: M13::default(),
            m14: M14::default(),
            m15: M15::default(),
        }
    }
}

} // verus!
