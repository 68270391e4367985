//! Mutators of the signed integer types.
//!
//! Each redraws the value from the whole type, and while shrinking from the
//! values strictly between it and zero, zero included, so that a shrunk
//! value is strictly nearer to zero and zero has no candidate. Held to a
//! range, each redraws from the range, and while shrinking from the part of
//! it that does not lie above the value.

use crate::context::{mutated, Candidates, Context};
use crate::error::{Error, ErrorKind};
use crate::laws::steps_to;
use crate::mutate::{DefaultMutate, Generate, Mutate, MutateInRange};
use crate::mutators::range::Range;
use std::ops::RangeInclusive;
use vstd::prelude::*;

verus! {

broadcast use crate::error::group_error_facts;

/// The default mutator of `i8` values.
#[derive(Clone, Copy, Debug)]
pub struct I8 {
    _private: (),
}

/// A mutator of `i8` values: it redraws the value from the whole type, and
/// while shrinking from the values strictly nearer to zero.
pub fn i8() -> (m: I8)
    ensures
        m.wf(),
{
    I8 { _private: () }
}

impl Default for I8 {
    fn default() -> (m: Self)
        ensures
            m.wf(),
    {
        i8()
    }
}

impl DefaultMutate for i8 {
    type DefaultMutate = I8;
}

impl Mutate<i8> for I8 {
    open spec fn wf(&self) -> bool {
        true
    }

    open spec fn rejects(&self, value: i8, shrink: bool) -> Option<ErrorKind> {
        None
    }

    open spec fn candidates(&self, value: i8, shrink: bool) -> nat {
        if shrink && value == 0 {
            0
        } else {
            1
        }
    }

    open spec fn max_candidates(&self) -> nat {
        1
    }

    open spec fn applies(
        &self,
        value: i8,
        shrink: bool,
        index: nat,
        after: Self,
        new_value: i8,
        result: Result<(), Error>,
    ) -> bool {
        &&& result is Ok
        &&& after == *self
        &&& shrink && value > 0 ==> 0 <= new_value < value
        &&& shrink && value < 0 ==> value < new_value <= 0
    }

    fn mutate(&mut self, c: &mut Candidates<'_>, value: &mut i8) -> (r: Result<(), Error>) {
        if c.shrink() && *value == 0 {
            return Ok(());
        }
        let redraw = |ctx: &mut Context<'_>, m: &mut I8, v: &mut i8| -> (res: Result<
            (),
            Error,
        >)
            requires
                ctx.shrink() ==> *v != 0,
            ensures
                *final(final(ctx).lent()) == *final(old(ctx).lent()),
                res is Ok,
                *final(m) == *old(m),
                old(ctx).shrink() && *old(v) > 0 ==> 0 <= *final(v) < *old(v),
                old(ctx).shrink() && *old(v) < 0 ==> *old(v) < *final(v) <= 0,
            {
                *v = if ctx.shrink() {
                    if *v > 0 {
                        ctx.rng().gen_range_i8(0, *v - 1)
                    } else {
                        ctx.rng().gen_range_i8(*v + 1, 0)
                    }
                } else {
                    ctx.rng().gen_i8()
                };
                Ok(())
            };
        c.mutation(self, value, redraw)
    }
}

impl Generate<i8> for I8 {
    open spec fn generates(&self, shrink: bool, after: Self, result: Result<i8, Error>) -> bool {
        result is Ok && after == *self
    }

    fn generate(&mut self, context: &mut Context<'_>) -> (r: Result<i8, Error>) {
        Ok(context.rng().gen_i8())
    }
}

impl MutateInRange<i8> for I8 {
    open spec fn rejects_in_range(
        &self,
        value: i8,
        range: RangeInclusive<i8>,
        shrink: bool,
    ) -> Option<ErrorKind> {
        if range@.start > range@.end {
            Some(ErrorKind::InvalidRange)
        } else {
            None
        }
    }

    open spec fn candidates_in_range(
        &self,
        value: i8,
        range: RangeInclusive<i8>,
        shrink: bool,
    ) -> nat {
        if range@.start > range@.end || (shrink && value <= range@.start) {
            0
        } else {
            1
        }
    }

    open spec fn applies_in_range(
        &self,
        value: i8,
        range: RangeInclusive<i8>,
        shrink: bool,
        index: nat,
        after: Self,
        new_value: i8,
        result: Result<(), Error>,
    ) -> bool {
        &&& result is Ok
        &&& after == *self
        &&& range@.start <= new_value <= range@.end
        &&& shrink ==> new_value <= value
    }

    fn mutate_in_range(
        &mut self,
        c: &mut Candidates<'_>,
        value: &mut i8,
        range: &RangeInclusive<i8>,
    ) -> (r: Result<(), Error>) {
        let start = *range.start();
        let end = *range.end();

        if start > end {
            return Err(Error::invalid_range());
        }
        if *value <= start && c.shrink() {
            return Ok(());
        }
        let redraw = |ctx: &mut Context<'_>, m: &mut I8, v: &mut i8| -> (res: Result<
            (),
            Error,
        >)
            requires
                start <= end,
                ctx.shrink() ==> start < *v,
            ensures
                *final(final(ctx).lent()) == *final(old(ctx).lent()),
                res is Ok,
                *final(m) == *old(m),
                start <= *final(v) <= end,
                old(ctx).shrink() ==> *final(v) <= *old(v),
            {
                let end = if ctx.shrink() && *v < end {
                    *v
                } else {
                    end
                };
                *v = ctx.rng().gen_range_i8(start, end);
                Ok(())
            };
        c.mutation(self, value, redraw)
    }
}

/// Shrinking a `i8` makes progress: the mutation succeeds exactly for a
/// value other than zero, and then leaves a value strictly nearer to zero, on the same side of it.
/// For zero it reports exhaustion and leaves the value alone.
pub proof fn lemma_i8_shrinks(
    mutator: I8,
    value: i8,
    after: I8,
    new_value: i8,
    r: Result<(), Error>,
)
    requires
        mutated(mutator, true, value, after, new_value, r),
    ensures
        r is Ok <==> value != 0,
        r is Ok ==> if value > 0 { 0 <= new_value < value } else { value < new_value <= 0 },
        r is Err ==> r == Err::<(), Error>(Error::of(ErrorKind::Exhausted)) && new_value == value,
{
}

/// Shrinking a `i8` ends: a run of values, each made from the one before
/// by a successful shrinking mutation, has no more steps than its first
/// value is away from zero. The mutation after the last possible step finds
/// zero and reports exhaustion.
pub proof fn lemma_i8_shrinking_ends(mutator: I8, values: Seq<i8>)
    requires
        values.len() > 0,
        forall|i: int|
            0 <= i < values.len() - 1 ==> steps_to(
                mutator,
                true,
                #[trigger] values[i],
                values[i + 1],
            ),
    ensures
        values.len() - 1 <= (if values[0] >= 0 { values[0] as int } else { -(values[0] as int) }),
    decreases values.len(),
{
    if values.len() > 1 {
        assert(steps_to(mutator, true, values[0], values[1]));
        let after = choose|after: I8|
            mutated(mutator, true, values[0], after, values[1], Ok(()));
        lemma_i8_shrinks(mutator, values[0], after, values[1], Ok(()));
        let rest = values.subrange(1, values.len() as int);
        assert forall|i: int| 0 <= i < rest.len() - 1 implies steps_to(
            mutator,
            true,
            #[trigger] rest[i],
            rest[i + 1],
        ) by {
            assert(steps_to(mutator, true, values[i + 1], values[i + 2]));
        }
        lemma_i8_shrinking_ends(mutator, rest);
    }
}

/// A `i8` held to a range stays in it: a mutation within `start..=end`
/// succeeds unless the session is shrinking a value that is not above
/// `start`, and then leaves a value of the range, which while shrinking is
/// not above the old one. Where it does not succeed it reports exhaustion,
/// and a range whose start lies above its end is reported as invalid; in
/// both cases the value is left alone.
pub proof fn lemma_i8_stays_in_range(
    ranged: Range<I8, i8>,
    shrink: bool,
    value: i8,
    after: Range<I8, i8>,
    new_value: i8,
    r: Result<(), Error>,
)
    requires
        mutated(ranged, shrink, value, after, new_value, r),
    ensures
        ranged.range@.start > ranged.range@.end ==> {
            &&& r == Err::<(), Error>(Error::of(ErrorKind::InvalidRange))
            &&& new_value == value
        },
        ranged.range@.start <= ranged.range@.end ==> {
            &&& r is Ok <==> !(shrink && value <= ranged.range@.start)
            &&& r is Ok ==> ranged.range@.start <= new_value <= ranged.range@.end
            &&& r is Ok && shrink ==> new_value <= value
            &&& r is Err ==> r == Err::<(), Error>(Error::of(ErrorKind::Exhausted)) && new_value
                == value
        },
{
}

/// A `i8` generated for a range lies in it. Generating fails for a range
/// whose start lies above its end, and may report exhaustion while
/// shrinking, where the value first drawn cannot be moved into the range
/// from above.
pub proof fn lemma_i8_generates_in_range(
    ranged: Range<I8, i8>,
    shrink: bool,
    after: Range<I8, i8>,
    r: Result<i8, Error>,
)
    requires
        ranged.generates(shrink, after, r),
    ensures
        r matches Ok(value) ==> ranged.range@.start <= value <= ranged.range@.end,
        r matches Err(e) ==> if ranged.range@.start > ranged.range@.end {
            e == Error::of(ErrorKind::InvalidRange)
        } else {
            shrink && e == Error::of(ErrorKind::Exhausted)
        },
{
}

/// The default mutator of `i16` values.
#[derive(Clone, Copy, Debug)]
pub struct I16 {
    _private: (),
}

/// A mutator of `i16` values: it redraws the value from the whole type, and
/// while shrinking from the values strictly nearer to zero.
pub fn i16() -> (m: I16)
    ensures
        m.wf(),
{
    I16 { _private: () }
}

impl Default for I16 {
    fn default() -> (m: Self)
        ensures
            m.wf(),
    {
        i16()
    }
}

impl DefaultMutate for i16 {
    type DefaultMutate = I16;
}

impl Mutate<i16> for I16 {
    open spec fn wf(&self) -> bool {
        true
    }

    open spec fn rejects(&self, value: i16, shrink: bool) -> Option<ErrorKind> {
        None
    }

    open spec fn candidates(&self, value: i16, shrink: bool) -> nat {
        if shrink && value == 0 {
            0
        } else {
            1
        }
    }

    open spec fn max_candidates(&self) -> nat {
        1
    }

    open spec fn applies(
        &self,
        value: i16,
        shrink: bool,
        index: nat,
        after: Self,
        new_value: i16,
        result: Result<(), Error>,
    ) -> bool {
        &&& result is Ok
        &&& after == *self
        &&& shrink && value > 0 ==> 0 <= new_value < value
        &&& shrink && value < 0 ==> value < new_value <= 0
    }

    fn mutate(&mut self, c: &mut Candidates<'_>, value: &mut i16) -> (r: Result<(), Error>) {
        if c.shrink() && *value == 0 {
            return Ok(());
        }
        let redraw = |ctx: &mut Context<'_>, m: &mut I16, v: &mut i16| -> (res: Result<
            (),
            Error,
        >)
            requires
                ctx.shrink() ==> *v != 0,
            ensures
                *final(final(ctx).lent()) == *final(old(ctx).lent()),
                res is Ok,
                *final(m) == *old(m),
                old(ctx).shrink() && *old(v) > 0 ==> 0 <= *final(v) < *old(v),
                old(ctx).shrink() && *old(v) < 0 ==> *old(v) < *final(v) <= 0,
            {
                *v = if ctx.shrink() {
                    if *v > 0 {
                        ctx.rng().gen_range_i16(0, *v - 1)
                    } else {
                        ctx.rng().gen_range_i16(*v + 1, 0)
                    }
                } else {
                    ctx.rng().gen_i16()
                };
                Ok(())
            };
        c.mutation(self, value, redraw)
    }
}

impl Generate<i16> for I16 {
    open spec fn generates(&self, shrink: bool, after: Self, result: Result<i16, Error>) -> bool {
        result is Ok && after == *self
    }

    fn generate(&mut self, context: &mut Context<'_>) -> (r: Result<i16, Error>) {
        Ok(context.rng().gen_i16())
    }
}

impl MutateInRange<i16> for I16 {
    open spec fn rejects_in_range(
        &self,
        value: i16,
        range: RangeInclusive<i16>,
        shrink: bool,
    ) -> Option<ErrorKind> {
        if range@.start > range@.end {
            Some(ErrorKind::InvalidRange)
        } else {
            None
        }
    }

    open spec fn candidates_in_range(
        &self,
        value: i16,
        range: RangeInclusive<i16>,
        shrink: bool,
    ) -> nat {
        if range@.start > range@.end || (shrink && value <= range@.start) {
            0
        } else {
            1
        }
    }

    open spec fn applies_in_range(
        &self,
        value: i16,
        range: RangeInclusive<i16>,
        shrink: bool,
        index: nat,
        after: Self,
        new_value: i16,
        result: Result<(), Error>,
    ) -> bool {
        &&& result is Ok
        &&& after == *self
        &&& range@.start <= new_value <= range@.end
        &&& shrink ==> new_value <= value
    }

    fn mutate_in_range(
        &mut self,
        c: &mut Candidates<'_>,
        value: &mut i16,
        range: &RangeInclusive<i16>,
    ) -> (r: Result<(), Error>) {
        let start = *range.start();
        let end = *range.end();

        if start > end {
            return Err(Error::invalid_range());
        }
        if *value <= start && c.shrink() {
            return Ok(());
        }
        let redraw = |ctx: &mut Context<'_>, m: &mut I16, v: &mut i16| -> (res: Result<
            (),
            Error,
        >)
            requires
                start <= end,
                ctx.shrink() ==> start < *v,
            ensures
                *final(final(ctx).lent()) == *final(old(ctx).lent()),
                res is Ok,
                *final(m) == *old(m),
                start <= *final(v) <= end,
                old(ctx).shrink() ==> *final(v) <= *old(v),
            {
                let end = if ctx.shrink() && *v < end {
                    *v
                } else {
                    end
                };
                *v = ctx.rng().gen_range_i16(start, end);
                Ok(())
            };
        c.mutation(self, value, redraw)
    }
}

/// Shrinking a `i16` makes progress: the mutation succeeds exactly for a
/// value other than zero, and then leaves a value strictly nearer to zero, on the same side of it.
/// For zero it reports exhaustion and leaves the value alone.
pub proof fn lemma_i16_shrinks(
    mutator: I16,
    value: i16,
    after: I16,
    new_value: i16,
    r: Result<(), Error>,
)
    requires
        mutated(mutator, true, value, after, new_value, r),
    ensures
        r is Ok <==> value != 0,
        r is Ok ==> if value > 0 { 0 <= new_value < value } else { value < new_value <= 0 },
        r is Err ==> r == Err::<(), Error>(Error::of(ErrorKind::Exhausted)) && new_value == value,
{
}

/// Shrinking a `i16` ends: a run of values, each made from the one before
/// by a successful shrinking mutation, has no more steps than its first
/// value is away from zero. The mutation after the last possible step finds
/// zero and reports exhaustion.
pub proof fn lemma_i16_shrinking_ends(mutator: I16, values: Seq<i16>)
    requires
        values.len() > 0,
        forall|i: int|
            0 <= i < values.len() - 1 ==> steps_to(
                mutator,
                true,
                #[trigger] values[i],
                values[i + 1],
            ),
    ensures
        values.len() - 1 <= (if values[0] >= 0 { values[0] as int } else { -(values[0] as int) }),
    decreases values.len(),
{
    if values.len() > 1 {
        assert(steps_to(mutator, true, values[0], values[1]));
        let after = choose|after: I16|
            mutated(mutator, true, values[0], after, values[1], Ok(()));
        lemma_i16_shrinks(mutator, values[0], after, values[1], Ok(()));
        let rest = values.subrange(1, values.len() as int);
        assert forall|i: int| 0 <= i < rest.len() - 1 implies steps_to(
            mutator,
            true,
            #[trigger] rest[i],
            rest[i + 1],
        ) by {
            assert(steps_to(mutator, true, values[i + 1], values[i + 2]));
        }
        lemma_i16_shrinking_ends(mutator, rest);
    }
}

/// A `i16` held to a range stays in it: a mutation within `start..=end`
/// succeeds unless the session is shrinking a value that is not above
/// `start`, and then leaves a value of the range, which while shrinking is
/// not above the old one. Where it does not succeed it reports exhaustion,
/// and a range whose start lies above its end is reported as invalid; in
/// both cases the value is left alone.
pub proof fn lemma_i16_stays_in_range(
    ranged: Range<I16, i16>,
    shrink: bool,
    value: i16,
    after: Range<I16, i16>,
    new_value: i16,
    r: Result<(), Error>,
)
    requires
        mutated(ranged, shrink, value, after, new_value, r),
    ensures
        ranged.range@.start > ranged.range@.end ==> {
            &&& r == Err::<(), Error>(Error::of(ErrorKind::InvalidRange))
            &&& new_value == value
        },
        ranged.range@.start <= ranged.range@.end ==> {
            &&& r is Ok <==> !(shrink && value <= ranged.range@.start)
            &&& r is Ok ==> ranged.range@.start <= new_value <= ranged.range@.end
            &&& r is Ok && shrink ==> new_value <= value
            &&& r is Err ==> r == Err::<(), Error>(Error::of(ErrorKind::Exhausted)) && new_value
                == value
        },
{
}

/// A `i16` generated for a range lies in it. Generating fails for a range
/// whose start lies above its end, and may report exhaustion while
/// shrinking, where the value first drawn cannot be moved into the range
/// from above.
pub proof fn lemma_i16_generates_in_range(
    ranged: Range<I16, i16>,
    shrink: bool,
    after: Range<I16, i16>,
    r: Result<i16, Error>,
)
    requires
        ranged.generates(shrink, after, r),
    ensures
        r matches Ok(value) ==> ranged.range@.start <= value <= ranged.range@.end,
        r matches Err(e) ==> if ranged.range@.start > ranged.range@.end {
            e == Error::of(ErrorKind::InvalidRange)
        } else {
            shrink && e == Error::of(ErrorKind::Exhausted)
        },
{
}

/// The default mutator of `i32` values.
#[derive(Clone, Copy, Debug)]
pub struct I32 {
    _private: (),
}

/// A mutator of `i32` values: it redraws the value from the whole type, and
/// while shrinking from the values strictly nearer to zero.
pub fn i32() -> (m: I32)
    ensures
        m.wf(),
{
    I32 { _private: () }
}

impl Default for I32 {
    fn default() -> (m: Self)
        ensures
            m.wf(),
    {
        i32()
    }
}

impl DefaultMutate for i32 {
    type DefaultMutate = I32;
}

impl Mutate<i32> for I32 {
    open spec fn wf(&self) -> bool {
        true
    }

    open spec fn rejects(&self, value: i32, shrink: bool) -> Option<ErrorKind> {
        None
    }

    open spec fn candidates(&self, value: i32, shrink: bool) -> nat {
        if shrink && value == 0 {
            0
        } else {
            1
        }
    }

    open spec fn max_candidates(&self) -> nat {
        1
    }

    open spec fn applies(
        &self,
        value: i32,
        shrink: bool,
        index: nat,
        after: Self,
        new_value: i32,
        result: Result<(), Error>,
    ) -> bool {
        &&& result is Ok
        &&& after == *self
        &&& shrink && value > 0 ==> 0 <= new_value < value
        &&& shrink && value < 0 ==> value < new_value <= 0
    }

    fn mutate(&mut self, c: &mut Candidates<'_>, value: &mut i32) -> (r: Result<(), Error>) {
        if c.shrink() && *value == 0 {
            return Ok(());
        }
        let redraw = |ctx: &mut Context<'_>, m: &mut I32, v: &mut i32| -> (res: Result<
            (),
            Error,
        >)
            requires
                ctx.shrink() ==> *v != 0,
            ensures
                *final(final(ctx).lent()) == *final(old(ctx).lent()),
                res is Ok,
                *final(m) == *old(m),
                old(ctx).shrink() && *old(v) > 0 ==> 0 <= *final(v) < *old(v),
                old(ctx).shrink() && *old(v) < 0 ==> *old(v) < *final(v) <= 0,
            {
                *v = if ctx.shrink() {
                    if *v > 0 {
                        ctx.rng().gen_range_i32(0, *v - 1)
                    } else {
                        ctx.rng().gen_range_i32(*v + 1, 0)
                    }
                } else {
                    ctx.rng().gen_i32()
                };
                Ok(())
            };
        c.mutation(self, value, redraw)
    }
}

impl Generate<i32> for I32 {
    open spec fn generates(&self, shrink: bool, after: Self, result: Result<i32, Error>) -> bool {
        result is Ok && after == *self
    }

    fn generate(&mut self, context: &mut Context<'_>) -> (r: Result<i32, Error>) {
        Ok(context.rng().gen_i32())
    }
}

impl MutateInRange<i32> for I32 {
    open spec fn rejects_in_range(
        &self,
        value: i32,
        range: RangeInclusive<i32>,
        shrink: bool,
    ) -> Option<ErrorKind> {
        if range@.start > range@.end {
            Some(ErrorKind::InvalidRange)
        } else {
            None
        }
    }

    open spec fn candidates_in_range(
        &self,
        value: i32,
        range: RangeInclusive<i32>,
        shrink: bool,
    ) -> nat {
        if range@.start > range@.end || (shrink && value <= range@.start) {
            0
        } else {
            1
        }
    }

    open spec fn applies_in_range(
        &self,
        value: i32,
        range: RangeInclusive<i32>,
        shrink: bool,
        index: nat,
        after: Self,
        new_value: i32,
        result: Result<(), Error>,
    ) -> bool {
        &&& result is Ok
        &&& after == *self
        &&& range@.start <= new_value <= range@.end
        &&& shrink ==> new_value <= value
    }

    fn mutate_in_range(
        &mut self,
        c: &mut Candidates<'_>,
        value: &mut i32,
        range: &RangeInclusive<i32>,
    ) -> (r: Result<(), Error>) {
        let start = *range.start();
        let end = *range.end();

        if start > end {
            return Err(Error::invalid_range());
        }
        if *value <= start && c.shrink() {
            return Ok(());
        }
        let redraw = |ctx: &mut Context<'_>, m: &mut I32, v: &mut i32| -> (res: Result<
            (),
            Error,
        >)
            requires
                start <= end,
                ctx.shrink() ==> start < *v,
            ensures
                *final(final(ctx).lent()) == *final(old(ctx).lent()),
                res is Ok,
                *final(m) == *old(m),
                start <= *final(v) <= end,
                old(ctx).shrink() ==> *final(v) <= *old(v),
            {
                let end = if ctx.shrink() && *v < end {
                    *v
                } else {
                    end
                };
                *v = ctx.rng().gen_range_i32(start, end);
                Ok(())
            };
        c.mutation(self, value, redraw)
    }
}

/// Shrinking a `i32` makes progress: the mutation succeeds exactly for a
/// value other than zero, and then leaves a value strictly nearer to zero, on the same side of it.
/// For zero it reports exhaustion and leaves the value alone.
pub proof fn lemma_i32_shrinks(
    mutator: I32,
    value: i32,
    after: I32,
    new_value: i32,
    r: Result<(), Error>,
)
    requires
        mutated(mutator, true, value, after, new_value, r),
    ensures
        r is Ok <==> value != 0,
        r is Ok ==> if value > 0 { 0 <= new_value < value } else { value < new_value <= 0 },
        r is Err ==> r == Err::<(), Error>(Error::of(ErrorKind::Exhausted)) && new_value == value,
{
}

/// Shrinking a `i32` ends: a run of values, each made from the one before
/// by a successful shrinking mutation, has no more steps than its first
/// value is away from zero. The mutation after the last possible step finds
/// zero and reports exhaustion.
pub proof fn lemma_i32_shrinking_ends(mutator: I32, values: Seq<i32>)
    requires
        values.len() > 0,
        forall|i: int|
            0 <= i < values.len() - 1 ==> steps_to(
                mutator,
                true,
                #[trigger] values[i],
                values[i + 1],
            ),
    ensures
        values.len() - 1 <= (if values[0] >= 0 { values[0] as int } else { -(values[0] as int) }),
    decreases values.len(),
{
    if values.len() > 1 {
        assert(steps_to(mutator, true, values[0], values[1]));
        let after = choose|after: I32|
            mutated(mutator, true, values[0], after, values[1], Ok(()));
        lemma_i32_shrinks(mutator, values[0], after, values[1], Ok(()));
        let rest = values.subrange(1, values.len() as int);
        assert forall|i: int| 0 <= i < rest.len() - 1 implies steps_to(
            mutator,
            true,
            #[trigger] rest[i],
            rest[i + 1],
        ) by {
            assert(steps_to(mutator, true, values[i + 1], values[i + 2]));
        }
        lemma_i32_shrinking_ends(mutator, rest);
    }
}

/// A `i32` held to a range stays in it: a mutation within `start..=end`
/// succeeds unless the session is shrinking a value that is not above
/// `start`, and then leaves a value of the range, which while shrinking is
/// not above the old one. Where it does not succeed it reports exhaustion,
/// and a range whose start lies above its end is reported as invalid; in
/// both cases the value is left alone.
pub proof fn lemma_i32_stays_in_range(
    ranged: Range<I32, i32>,
    shrink: bool,
    value: i32,
    after: Range<I32, i32>,
    new_value: i32,
    r: Result<(), Error>,
)
    requires
        mutated(ranged, shrink, value, after, new_value, r),
    ensures
        ranged.range@.start > ranged.range@.end ==> {
            &&& r == Err::<(), Error>(Error::of(ErrorKind::InvalidRange))
            &&& new_value == value
        },
        ranged.range@.start <= ranged.range@.end ==> {
            &&& r is Ok <==> !(shrink && value <= ranged.range@.start)
            &&& r is Ok ==> ranged.range@.start <= new_value <= ranged.range@.end
            &&& r is Ok && shrink ==> new_value <= value
            &&& r is Err ==> r == Err::<(), Error>(Error::of(ErrorKind::Exhausted)) && new_value
                == value
        },
{
}

/// A `i32` generated for a range lies in it. Generating fails for a range
/// whose start lies above its end, and may report exhaustion while
/// shrinking, where the value first drawn cannot be moved into the range
/// from above.
pub proof fn lemma_i32_generates_in_range(
    ranged: Range<I32, i32>,
    shrink: bool,
    after: Range<I32, i32>,
    r: Result<i32, Error>,
)
    requires
        ranged.generates(shrink, after, r),
    ensures
        r matches Ok(value) ==> ranged.range@.start <= value <= ranged.range@.end,
        r matches Err(e) ==> if ranged.range@.start > ranged.range@.end {
            e == Error::of(ErrorKind::InvalidRange)
        } else {
            shrink && e == Error::of(ErrorKind::Exhausted)
        },
{
}

/// The default mutator of `i64` values.
#[derive(Clone, Copy, Debug)]
pub struct I64 {
    _private: (),
}

/// A mutator of `i64` values: it redraws the value from the whole type, and
/// while shrinking from the values strictly nearer to zero.
pub fn i64() -> (m: I64)
    ensures
        m.wf(),
{
    I64 { _private: () }
}

impl Default for I64 {
    fn default() -> (m: Self)
        ensures
            m.wf(),
    {
        i64()
    }
}

impl DefaultMutate for i64 {
    type DefaultMutate = I64;
}

impl Mutate<i64> for I64 {
    open spec fn wf(&self) -> bool {
        true
    }

    open spec fn rejects(&self, value: i64, shrink: bool) -> Option<ErrorKind> {
        None
    }

    open spec fn candidates(&self, value: i64, shrink: bool) -> nat {
        if shrink && value == 0 {
            0
        } else {
            1
        }
    }

    open spec fn max_candidates(&self) -> nat {
        1
    }

    open spec fn applies(
        &self,
        value: i64,
        shrink: bool,
        index: nat,
        after: Self,
        new_value: i64,
        result: Result<(), Error>,
    ) -> bool {
        &&& result is Ok
        &&& after == *self
        &&& shrink && value > 0 ==> 0 <= new_value < value
        &&& shrink && value < 0 ==> value < new_value <= 0
    }

    fn mutate(&mut self, c: &mut Candidates<'_>, value: &mut i64) -> (r: Result<(), Error>) {
        if c.shrink() && *value == 0 {
            return Ok(());
        }
        let redraw = |ctx: &mut Context<'_>, m: &mut I64, v: &mut i64| -> (res: Result<
            (),
            Error,
        >)
            requires
                ctx.shrink() ==> *v != 0,
            ensures
                *final(final(ctx).lent()) == *final(old(ctx).lent()),
                res is Ok,
                *final(m) == *old(m),
                old(ctx).shrink() && *old(v) > 0 ==> 0 <= *final(v) < *old(v),
                old(ctx).shrink() && *old(v) < 0 ==> *old(v) < *final(v) <= 0,
            {
                *v = if ctx.shrink() {
                    if *v > 0 {
                        ctx.rng().gen_range_i64(0, *v - 1)
                    } else {
                        ctx.rng().gen_range_i64(*v + 1, 0)
                    }
                } else {
                    ctx.rng().gen_i64()
                };
                Ok(())
            };
        c.mutation(self, value, redraw)
    }
}

impl Generate<i64> for I64 {
    open spec fn generates(&self, shrink: bool, after: Self, result: Result<i64, Error>) -> bool {
        result is Ok && after == *self
    }

    fn generate(&mut self, context: &mut Context<'_>) -> (r: Result<i64, Error>) {
        Ok(context.rng().gen_i64())
    }
}

impl MutateInRange<i64> for I64 {
    open spec fn rejects_in_range(
        &self,
        value: i64,
        range: RangeInclusive<i64>,
        shrink: bool,
    ) -> Option<ErrorKind> {
        if range@.start > range@.end {
            Some(ErrorKind::InvalidRange)
        } else {
            None
        }
    }

    open spec fn candidates_in_range(
        &self,
        value: i64,
        range: RangeInclusive<i64>,
        shrink: bool,
    ) -> nat {
        if range@.start > range@.end || (shrink && value <= range@.start) {
            0
        } else {
            1
        }
    }

    open spec fn applies_in_range(
        &self,
        value: i64,
        range: RangeInclusive<i64>,
        shrink: bool,
        index: nat,
        after: Self,
        new_value: i64,
        result: Result<(), Error>,
    ) -> bool {
        &&& result is Ok
        &&& after == *self
        &&& range@.start <= new_value <= range@.end
        &&& shrink ==> new_value <= value
    }

    fn mutate_in_range(
        &mut self,
        c: &mut Candidates<'_>,
        value: &mut i64,
        range: &RangeInclusive<i64>,
    ) -> (r: Result<(), Error>) {
        let start = *range.start();
        let end = *range.end();

        if start > end {
            return Err(Error::invalid_range());
        }
        if *value <= start && c.shrink() {
            return Ok(());
        }
        let redraw = |ctx: &mut Context<'_>, m: &mut I64, v: &mut i64| -> (res: Result<
            (),
            Error,
        >)
            requires
                start <= end,
                ctx.shrink() ==> start < *v,
            ensures
                *final(final(ctx).lent()) == *final(old(ctx).lent()),
                res is Ok,
                *final(m) == *old(m),
                start <= *final(v) <= end,
                old(ctx).shrink() ==> *final(v) <= *old(v),
            {
                let end = if ctx.shrink() && *v < end {
                    *v
                } else {
                    end
                };
                *v = ctx.rng().gen_range_i64(start, end);
                Ok(())
            };
        c.mutation(self, value, redraw)
    }
}

/// Shrinking a `i64` makes progress: the mutation succeeds exactly for a
/// value other than zero, and then leaves a value strictly nearer to zero, on the same side of it.
/// For zero it reports exhaustion and leaves the value alone.
pub proof fn lemma_i64_shrinks(
    mutator: I64,
    value: i64,
    after: I64,
    new_value: i64,
    r: Result<(), Error>,
)
    requires
        mutated(mutator, true, value, after, new_value, r),
    ensures
        r is Ok <==> value != 0,
        r is Ok ==> if value > 0 { 0 <= new_value < value } else { value < new_value <= 0 },
        r is Err ==> r == Err::<(), Error>(Error::of(ErrorKind::Exhausted)) && new_value == value,
{
}

/// Shrinking a `i64` ends: a run of values, each made from the one before
/// by a successful shrinking mutation, has no more steps than its first
/// value is away from zero. The mutation after the last possible step finds
/// zero and reports exhaustion.
pub proof fn lemma_i64_shrinking_ends(mutator: I64, values: Seq<i64>)
    requires
        values.len() > 0,
        forall|i: int|
            0 <= i < values.len() - 1 ==> steps_to(
                mutator,
                true,
                #[trigger] values[i],
                values[i + 1],
            ),
    ensures
        values.len() - 1 <= (if values[0] >= 0 { values[0] as int } else { -(values[0] as int) }),
    decreases values.len(),
{
    if values.len() > 1 {
        assert(steps_to(mutator, true, values[0], values[1]));
        let after = choose|after: I64|
            mutated(mutator, true, values[0], after, values[1], Ok(()));
        lemma_i64_shrinks(mutator, values[0], after, values[1], Ok(()));
        let rest = values.subrange(1, values.len() as int);
        assert forall|i: int| 0 <= i < rest.len() - 1 implies steps_to(
            mutator,
            true,
            #[trigger] rest[i],
            rest[i + 1],
        ) by {
            assert(steps_to(mutator, true, values[i + 1], values[i + 2]));
        }
        lemma_i64_shrinking_ends(mutator, rest);
    }
}

/// A `i64` held to a range stays in it: a mutation within `start..=end`
/// succeeds unless the session is shrinking a value that is not above
/// `start`, and then leaves a value of the range, which while shrinking is
/// not above the old one. Where it does not succeed it reports exhaustion,
/// and a range whose start lies above its end is reported as invalid; in
/// both cases the value is left alone.
pub proof fn lemma_i64_stays_in_range(
    ranged: Range<I64, i64>,
    shrink: bool,
    value: i64,
    after: Range<I64, i64>,
    new_value: i64,
    r: Result<(), Error>,
)
    requires
        mutated(ranged, shrink, value, after, new_value, r),
    ensures
        ranged.range@.start > ranged.range@.end ==> {
            &&& r == Err::<(), Error>(Error::of(ErrorKind::InvalidRange))
            &&& new_value == value
        },
        ranged.range@.start <= ranged.range@.end ==> {
            &&& r is Ok <==> !(shrink && value <= ranged.range@.start)
            &&& r is Ok ==> ranged.range@.start <= new_value <= ranged.range@.end
            &&& r is Ok && shrink ==> new_value <= value
            &&& r is Err ==> r == Err::<(), Error>(Error::of(ErrorKind::Exhausted)) && new_value
                == value
        },
{
}

/// A `i64` generated for a range lies in it. Generating fails for a range
/// whose start lies above its end, and may report exhaustion while
/// shrinking, where the value first drawn cannot be moved into the range
/// from above.
pub proof fn lemma_i64_generates_in_range(
    ranged: Range<I64, i64>,
    shrink: bool,
    after: Range<I64, i64>,
    r: Result<i64, Error>,
)
    requires
        ranged.generates(shrink, after, r),
    ensures
        r matches Ok(value) ==> ranged.range@.start <= value <= ranged.range@.end,
        r matches Err(e) ==> if ranged.range@.start > ranged.range@.end {
            e == Error::of(ErrorKind::InvalidRange)
        } else {
            shrink && e == Error::of(ErrorKind::Exhausted)
        },
{
}

/// The default mutator of `i128` values.
#[derive(Clone, Copy, Debug)]
pub struct I128 {
    _private: (),
}

/// A mutator of `i128` values: it redraws the value from the whole type, and
/// while shrinking from the values strictly nearer to zero.
pub fn i128() -> (m: I128)
    ensures
        m.wf(),
{
    I128 { _private: () }
}

impl Default for I128 {
    fn default() -> (m: Self)
        ensures
            m.wf(),
    {
        i128()
    }
}

impl DefaultMutate for i128 {
    type DefaultMutate = I128;
}

impl Mutate<i128> for I128 {
    open spec fn wf(&self) -> bool {
        true
    }

    open spec fn rejects(&self, value: i128, shrink: bool) -> Option<ErrorKind> {
        None
    }

    open spec fn candidates(&self, value: i128, shrink: bool) -> nat {
        if shrink && value == 0 {
            0
        } else {
            1
        }
    }

    open spec fn max_candidates(&self) -> nat {
        1
    }

    open spec fn applies(
        &self,
        value: i128,
        shrink: bool,
        index: nat,
        after: Self,
        new_value: i128,
        result: Result<(), Error>,
    ) -> bool {
        &&& result is Ok
        &&& after == *self
        &&& shrink && value > 0 ==> 0 <= new_value < value
        &&& shrink && value < 0 ==> value < new_value <= 0
    }

    fn mutate(&mut self, c: &mut Candidates<'_>, value: &mut i128) -> (r: Result<(), Error>) {
        if c.shrink() && *value == 0 {
            return Ok(());
        }
        let redraw = |ctx: &mut Context<'_>, m: &mut I128, v: &mut i128| -> (res: Result<
            (),
            Error,
        >)
            requires
                ctx.shrink() ==> *v != 0,
            ensures
                *final(final(ctx).lent()) == *final(old(ctx).lent()),
                res is Ok,
                *final(m) == *old(m),
                old(ctx).shrink() && *old(v) > 0 ==> 0 <= *final(v) < *old(v),
                old(ctx).shrink() && *old(v) < 0 ==> *old(v) < *final(v) <= 0,
            {
                *v = if ctx.shrink() {
                    if *v > 0 {
                        ctx.rng().gen_range_i128(0, *v - 1)
                    } else {
                        ctx.rng().gen_range_i128(*v + 1, 0)
                    }
                } else {
                    ctx.rng().gen_i128()
                };
                Ok(())
            };
        c.mutation(self, value, redraw)
    }
}

impl Generate<i128> for I128 {
    open spec fn generates(&self, shrink: bool, after: Self, result: Result<i128, Error>) -> bool {
        result is Ok && after == *self
    }

    fn generate(&mut self, context: &mut Context<'_>) -> (r: Result<i128, Error>) {
        Ok(context.rng().gen_i128())
    }
}

impl MutateInRange<i128> for I128 {
    open spec fn rejects_in_range(
        &self,
        value: i128,
        range: RangeInclusive<i128>,
        shrink: bool,
    ) -> Option<ErrorKind> {
        if range@.start > range@.end {
            Some(ErrorKind::InvalidRange)
        } else {
            None
        }
    }

    open spec fn candidates_in_range(
        &self,
        value: i128,
        range: RangeInclusive<i128>,
        shrink: bool,
    ) -> nat {
        if range@.start > range@.end || (shrink && value <= range@.start) {
            0
        } else {
            1
        }
    }

    open spec fn applies_in_range(
        &self,
        value: i128,
        range: RangeInclusive<i128>,
        shrink: bool,
        index: nat,
        after: Self,
        new_value: i128,
        result: Result<(), Error>,
    ) -> bool {
        &&& result is Ok
        &&& after == *self
        &&& range@.start <= new_value <= range@.end
        &&& shrink ==> new_value <= value
    }

    fn mutate_in_range(
        &mut self,
        c: &mut Candidates<'_>,
        value: &mut i128,
        range: &RangeInclusive<i128>,
    ) -> (r: Result<(), Error>) {
        let start = *range.start();
        let end = *range.end();

        if start > end {
            return Err(Error::invalid_range());
        }
        if *value <= start && c.shrink() {
            return Ok(());
        }
        let redraw = |ctx: &mut Context<'_>, m: &mut I128, v: &mut i128| -> (res: Result<
            (),
            Error,
        >)
            requires
                start <= end,
                ctx.shrink() ==> start < *v,
            ensures
                *final(final(ctx).lent()) == *final(old(ctx).lent()),
                res is Ok,
                *final(m) == *old(m),
                start <= *final(v) <= end,
                old(ctx).shrink() ==> *final(v) <= *old(v),
            {
                let end = if ctx.shrink() && *v < end {
                    *v
                } else {
                    end
                };
                *v = ctx.rng().gen_range_i128(start, end);
                Ok(())
            };
        c.mutation(self, value, redraw)
    }
}

/// Shrinking a `i128` makes progress: the mutation succeeds exactly for a
/// value other than zero, and then leaves a value strictly nearer to zero, on the same side of it.
/// For zero it reports exhaustion and leaves the value alone.
pub proof fn lemma_i128_shrinks(
    mutator: I128,
    value: i128,
    after: I128,
    new_value: i128,
    r: Result<(), Error>,
)
    requires
        mutated(mutator, true, value, after, new_value, r),
    ensures
        r is Ok <==> value != 0,
        r is Ok ==> if value > 0 { 0 <= new_value < value } else { value < new_value <= 0 },
        r is Err ==> r == Err::<(), Error>(Error::of(ErrorKind::Exhausted)) && new_value == value,
{
}

/// Shrinking a `i128` ends: a run of values, each made from the one before
/// by a successful shrinking mutation, has no more steps than its first
/// value is away from zero. The mutation after the last possible step finds
/// zero and reports exhaustion.
pub proof fn lemma_i128_shrinking_ends(mutator: I128, values: Seq<i128>)
    requires
        values.len() > 0,
        forall|i: int|
            0 <= i < values.len() - 1 ==> steps_to(
                mutator,
                true,
                #[trigger] values[i],
                values[i + 1],
            ),
    ensures
        values.len() - 1 <= (if values[0] >= 0 { values[0] as int } else { -(values[0] as int) }),
    decreases values.len(),
{
    if values.len() > 1 {
        assert(steps_to(mutator, true, values[0], values[1]));
        let after = choose|after: I128|
            mutated(mutator, true, values[0], after, values[1], Ok(()));
        lemma_i128_shrinks(mutator, values[0], after, values[1], Ok(()));
        let rest = values.subrange(1, values.len() as int);
        assert forall|i: int| 0 <= i < rest.len() - 1 implies steps_to(
            mutator,
            true,
            #[trigger] rest[i],
            rest[i + 1],
        ) by {
            assert(steps_to(mutator, true, values[i + 1], values[i + 2]));
        }
        lemma_i128_shrinking_ends(mutator, rest);
    }
}

/// A `i128` held to a range stays in it: a mutation within `start..=end`
/// succeeds unless the session is shrinking a value that is not above
/// `start`, and then leaves a value of the range, which while shrinking is
/// not above the old one. Where it does not succeed it reports exhaustion,
/// and a range whose start lies above its end is reported as invalid; in
/// both cases the value is left alone.
pub proof fn lemma_i128_stays_in_range(
    ranged: Range<I128, i128>,
    shrink: bool,
    value: i128,
    after: Range<I128, i128>,
    new_value: i128,
    r: Result<(), Error>,
)
    requires
        mutated(ranged, shrink, value, after, new_value, r),
    ensures
        ranged.range@.start > ranged.range@.end ==> {
            &&& r == Err::<(), Error>(Error::of(ErrorKind::InvalidRange))
            &&& new_value == value
        },
        ranged.range@.start <= ranged.range@.end ==> {
            &&& r is Ok <==> !(shrink && value <= ranged.range@.start)
            &&& r is Ok ==> ranged.range@.start <= new_value <= ranged.range@.end
            &&& r is Ok && shrink ==> new_value <= value
            &&& r is Err ==> r == Err::<(), Error>(Error::of(ErrorKind::Exhausted)) && new_value
                == value
        },
{
}

/// A `i128` generated for a range lies in it. Generating fails for a range
/// whose start lies above its end, and may report exhaustion while
/// shrinking, where the value first drawn cannot be moved into the range
/// from above.
pub proof fn lemma_i128_generates_in_range(
    ranged: Range<I128, i128>,
    shrink: bool,
    after: Range<I128, i128>,
    r: Result<i128, Error>,
)
    requires
        ranged.generates(shrink, after, r),
    ensures
        r matches Ok(value) ==> ranged.range@.start <= value <= ranged.range@.end,
        r matches Err(e) ==> if ranged.range@.start > ranged.range@.end {
            e == Error::of(ErrorKind::InvalidRange)
        } else {
            shrink && e == Error::of(ErrorKind::Exhausted)
        },
{
}

/// The default mutator of `isize` values.
#[derive(Clone, Copy, Debug)]
pub struct Isize {
    _private: (),
}

/// A mutator of `isize` values: it redraws the value from the whole type, and
/// while shrinking from the values strictly nearer to zero.
pub fn isize() -> (m: Isize)
    ensures
        m.wf(),
{
    Isize { _private: () }
}

impl Default for Isize {
    fn default() -> (m: Self)
        ensures
            m.wf(),
    {
        isize()
    }
}

impl DefaultMutate for isize {
    type DefaultMutate = Isize;
}

impl Mutate<isize> for Isize {
    open spec fn wf(&self) -> bool {
        true
    }

    open spec fn rejects(&self, value: isize, shrink: bool) -> Option<ErrorKind> {
        None
    }

    open spec fn candidates(&self, value: isize, shrink: bool) -> nat {
        if shrink && value == 0 {
            0
        } else {
            1
        }
    }

    open spec fn max_candidates(&self) -> nat {
        1
    }

    open spec fn applies(
        &self,
        value: isize,
        shrink: bool,
        index: nat,
        after: Self,
        new_value: isize,
        result: Result<(), Error>,
    ) -> bool {
        &&& result is Ok
        &&& after == *self
        &&& shrink && value > 0 ==> 0 <= new_value < value
        &&& shrink && value < 0 ==> value < new_value <= 0
    }

    fn mutate(&mut self, c: &mut Candidates<'_>, value: &mut isize) -> (r: Result<(), Error>) {
        if c.shrink() && *value == 0 {
            return Ok(());
        }
        let redraw = |ctx: &mut Context<'_>, m: &mut Isize, v: &mut isize| -> (res: Result<
            (),
            Error,
        >)
            requires
                ctx.shrink() ==> *v != 0,
            ensures
                *final(final(ctx).lent()) == *final(old(ctx).lent()),
                res is Ok,
                *final(m) == *old(m),
                old(ctx).shrink() && *old(v) > 0 ==> 0 <= *final(v) < *old(v),
                old(ctx).shrink() && *old(v) < 0 ==> *old(v) < *final(v) <= 0,
            {
                *v = if ctx.shrink() {
                    if *v > 0 {
                        ctx.rng().gen_range_isize(0, *v - 1)
                    } else {
                        ctx.rng().gen_range_isize(*v + 1, 0)
                    }
                } else {
                    ctx.rng().gen_isize()
                };
                Ok(())
            };
        c.mutation(self, value, redraw)
    }
}

impl Generate<isize> for Isize {
    open spec fn generates(&self, shrink: bool, after: Self, result: Result<isize, Error>) -> bool {
        result is Ok && after == *self
    }

    fn generate(&mut self, context: &mut Context<'_>) -> (r: Result<isize, Error>) {
        Ok(context.rng().gen_isize())
    }
}

impl MutateInRange<isize> for Isize {
    open spec fn rejects_in_range(
        &self,
        value: isize,
        range: RangeInclusive<isize>,
        shrink: bool,
    ) -> Option<ErrorKind> {
        if range@.start > range@.end {
            Some(ErrorKind::InvalidRange)
        } else {
            None
        }
    }

    open spec fn candidates_in_range(
        &self,
        value: isize,
        range: RangeInclusive<isize>,
        shrink: bool,
    ) -> nat {
        if range@.start > range@.end || (shrink && value <= range@.start) {
            0
        } else {
            1
        }
    }

    open spec fn applies_in_range(
        &self,
        value: isize,
        range: RangeInclusive<isize>,
        shrink: bool,
        index: nat,
        after: Self,
        new_value: isize,
        result: Result<(), Error>,
    ) -> bool {
        &&& result is Ok
        &&& after == *self
        &&& range@.start <= new_value <= range@.end
        &&& shrink ==> new_value <= value
    }

    fn mutate_in_range(
        &mut self,
        c: &mut Candidates<'_>,
        value: &mut isize,
        range: &RangeInclusive<isize>,
    ) -> (r: Result<(), Error>) {
        let start = *range.start();
        let end = *range.end();

        if start > end {
            return Err(Error::invalid_range());
        }
        if *value <= start && c.shrink() {
            return Ok(());
        }
        let redraw = |ctx: &mut Context<'_>, m: &mut Isize, v: &mut isize| -> (res: Result<
            (),
            Error,
        >)
            requires
                start <= end,
                ctx.shrink() ==> start < *v,
            ensures
                *final(final(ctx).lent()) == *final(old(ctx).lent()),
                res is Ok,
                *final(m) == *old(m),
                start <= *final(v) <= end,
                old(ctx).shrink() ==> *final(v) <= *old(v),
            {
                let end = if ctx.shrink() && *v < end {
                    *v
                } else {
                    end
                };
                *v = ctx.rng().gen_range_isize(start, end);
                Ok(())
            };
        c.mutation(self, value, redraw)
    }
}

/// Shrinking a `isize` makes progress: the mutation succeeds exactly for a
/// value other than zero, and then leaves a value strictly nearer to zero, on the same side of it.
/// For zero it reports exhaustion and leaves the value alone.
pub proof fn lemma_isize_shrinks(
    mutator: Isize,
    value: isize,
    after: Isize,
    new_value: isize,
    r: Result<(), Error>,
)
    requires
        mutated(mutator, true, value, after, new_value, r),
    ensures
        r is Ok <==> value != 0,
        r is Ok ==> if value > 0 { 0 <= new_value < value } else { value < new_value <= 0 },
        r is Err ==> r == Err::<(), Error>(Error::of(ErrorKind::Exhausted)) && new_value == value,
{
}

/// Shrinking a `isize` ends: a run of values, each made from the one before
/// by a successful shrinking mutation, has no more steps than its first
/// value is away from zero. The mutation after the last possible step finds
/// zero and reports exhaustion.
pub proof fn lemma_isize_shrinking_ends(mutator: Isize, values: Seq<isize>)
    requires
        values.len() > 0,
        forall|i: int|
            0 <= i < values.len() - 1 ==> steps_to(
                mutator,
                true,
                #[trigger] values[i],
                values[i + 1],
            ),
    ensures
        values.len() - 1 <= (if values[0] >= 0 { values[0] as int } else { -(values[0] as int) }),
    decreases values.len(),
{
    if values.len() > 1 {
        assert(steps_to(mutator, true, values[0], values[1]));
        let after = choose|after: Isize|
            mutated(mutator, true, values[0], after, values[1], Ok(()));
        lemma_isize_shrinks(mutator, values[0], after, values[1], Ok(()));
        let rest = values.subrange(1, values.len() as int);
        assert forall|i: int| 0 <= i < rest.len() - 1 implies steps_to(
            mutator,
            true,
            #[trigger] rest[i],
            rest[i + 1],
        ) by {
            assert(steps_to(mutator, true, values[i + 1], values[i + 2]));
        }
        lemma_isize_shrinking_ends(mutator, rest);
    }
}

/// A `isize` held to a range stays in it: a mutation within `start..=end`
/// succeeds unless the session is shrinking a value that is not above
/// `start`, and then leaves a value of the range, which while shrinking is
/// not above the old one. Where it does not succeed it reports exhaustion,
/// and a range whose start lies above its end is reported as invalid; in
/// both cases the value is left alone.
pub proof fn lemma_isize_stays_in_range(
    ranged: Range<Isize, isize>,
    shrink: bool,
    value: isize,
    after: Range<Isize, isize>,
    new_value: isize,
    r: Result<(), Error>,
)
    requires
        mutated(ranged, shrink, value, after, new_value, r),
    ensures
        ranged.range@.start > ranged.range@.end ==> {
            &&& r == Err::<(), Error>(Error::of(ErrorKind::InvalidRange))
            &&& new_value == value
        },
        ranged.range@.start <= ranged.range@.end ==> {
            &&& r is Ok <==> !(shrink && value <= ranged.range@.start)
            &&& r is Ok ==> ranged.range@.start <= new_value <= ranged.range@.end
            &&& r is Ok && shrink ==> new_value <= value
            &&& r is Err ==> r == Err::<(), Error>(Error::of(ErrorKind::Exhausted)) && new_value
                == value
        },
{
}

/// A `isize` generated for a range lies in it. Generating fails for a range
/// whose start lies above its end, and may report exhaustion while
/// shrinking, where the value first drawn cannot be moved into the range
/// from above.
pub proof fn lemma_isize_generates_in_range(
    ranged: Range<Isize, isize>,
    shrink: bool,
    after: Range<Isize, isize>,
    r: Result<isize, Error>,
)
    requires
        ranged.generates(shrink, after, r),
    ensures
        r matches Ok(value) ==> ranged.range@.start <= value <= ranged.range@.end,
        r matches Err(e) ==> if ranged.range@.start > ranged.range@.end {
            e == Error::of(ErrorKind::InvalidRange)
        } else {
            shrink && e == Error::of(ErrorKind::Exhausted)
        },
{
}

} // verus!
