//! Mutators of the unsigned integer types.
//!
//! Each redraws the value from the whole type, and while shrinking from the
//! values below it, so that a shrunk value is strictly smaller and zero has
//! no candidate. Held to a range, each redraws from the range, and while
//! shrinking from the part of it that does not lie above the value.

use crate::context::{mutated, Candidates, Context};
use crate::error::{Error, ErrorKind};
use crate::laws::steps_to;
use crate::mutate::{DefaultMutate, Generate, Mutate, MutateInRange};
use crate::mutators::range::Range;
use std::ops::RangeInclusive;
use vstd::prelude::*;

verus! {

broadcast use crate::error::group_error_facts;

/// The default mutator of `u8` values.
#[derive(Clone, Copy, Debug)]
pub struct U8 {
    _private: (),
}

/// A mutator of `u8` values: it redraws the value from the whole type, and
/// while shrinking from the values below it.
pub fn u8() -> (m: U8)
    ensures
        m.wf(),
{
    U8 { _private: () }
}

impl Default for U8 {
    fn default() -> (m: Self)
        ensures
            m.wf(),
    {
        u8()
    }
}

impl DefaultMutate for u8 {
    type DefaultMutate = U8;
}

impl Mutate<u8> for U8 {
    open spec fn wf(&self) -> bool {
        true
    }

    open spec fn rejects(&self, value: u8, shrink: bool) -> Option<ErrorKind> {
        None
    }

    open spec fn candidates(&self, value: u8, shrink: bool) -> nat {
        if shrink && value == 0 {
            0
        } else {
            1
        }
    }

    open spec fn max_candidates(&self) -> nat {
        1
    }

    open spec fn applies(
        &self,
        value: u8,
        shrink: bool,
        index: nat,
        after: Self,
        new_value: u8,
        result: Result<(), Error>,
    ) -> bool {
        &&& result is Ok
        &&& after == *self
        &&& shrink ==> new_value < value
    }

    fn mutate(&mut self, c: &mut Candidates<'_>, value: &mut u8) -> (r: Result<(), Error>) {
        if c.shrink() && *value == 0 {
            return Ok(());
        }
        let redraw = |ctx: &mut Context<'_>, m: &mut U8, v: &mut u8| -> (res: Result<
            (),
            Error,
        >)
            requires
                ctx.shrink() ==> *v != 0,
            ensures
                *final(final(ctx).lent()) == *final(old(ctx).lent()),
                res is Ok,
                *final(m) == *old(m),
                old(ctx).shrink() ==> *final(v) < *old(v),
            {
                *v = if ctx.shrink() {
                    ctx.rng().gen_range_u8(0, *v - 1)
                } else {
                    ctx.rng().gen_u8()
                };
                Ok(())
            };
        c.mutation(self, value, redraw)
    }
}

impl Generate<u8> for U8 {
    open spec fn generates(&self, shrink: bool, after: Self, result: Result<u8, Error>) -> bool {
        result is Ok && after == *self
    }

    fn generate(&mut self, context: &mut Context<'_>) -> (r: Result<u8, Error>) {
        Ok(context.rng().gen_u8())
    }
}

impl MutateInRange<u8> for U8 {
    open spec fn rejects_in_range(
        &self,
        value: u8,
        range: RangeInclusive<u8>,
        shrink: bool,
    ) -> Option<ErrorKind> {
        if range@.start > range@.end {
            Some(ErrorKind::InvalidRange)
        } else {
            None
        }
    }

    open spec fn candidates_in_range(
        &self,
        value: u8,
        range: RangeInclusive<u8>,
        shrink: bool,
    ) -> nat {
        if range@.start > range@.end || (shrink && value <= range@.start) {
            0
        } else {
            1
        }
    }

    open spec fn applies_in_range(
        &self,
        value: u8,
        range: RangeInclusive<u8>,
        shrink: bool,
        index: nat,
        after: Self,
        new_value: u8,
        result: Result<(), Error>,
    ) -> bool {
        &&& result is Ok
        &&& after == *self
        &&& range@.start <= new_value <= range@.end
        &&& shrink ==> new_value <= value
    }

    fn mutate_in_range(
        &mut self,
        c: &mut Candidates<'_>,
        value: &mut u8,
        range: &RangeInclusive<u8>,
    ) -> (r: Result<(), Error>) {
        let start = *range.start();
        let end = *range.end();

        if start > end {
            return Err(Error::invalid_range());
        }
        if *value <= start && c.shrink() {
            return Ok(());
        }
        let redraw = |ctx: &mut Context<'_>, m: &mut U8, v: &mut u8| -> (res: Result<
            (),
            Error,
        >)
            requires
                start <= end,
                ctx.shrink() ==> start < *v,
            ensures
                *final(final(ctx).lent()) == *final(old(ctx).lent()),
                res is Ok,
                *final(m) == *old(m),
                start <= *final(v) <= end,
                old(ctx).shrink() ==> *final(v) <= *old(v),
            {
                let end = if ctx.shrink() && *v < end {
                    *v
                } else {
                    end
                };
                *v = ctx.rng().gen_range_u8(start, end);
                Ok(())
            };
        c.mutation(self, value, redraw)
    }
}

/// Shrinking a `u8` makes progress: the mutation succeeds exactly for a
/// value other than zero, and then leaves a value strictly below it.
/// For zero it reports exhaustion and leaves the value alone.
pub proof fn lemma_u8_shrinks(
    mutator: U8,
    value: u8,
    after: U8,
    new_value: u8,
    r: Result<(), Error>,
)
    requires
        mutated(mutator, true, value, after, new_value, r),
    ensures
        r is Ok <==> value != 0,
        r is Ok ==> new_value < value,
        r is Err ==> r == Err::<(), Error>(Error::of(ErrorKind::Exhausted)) && new_value == value,
{
}

/// Shrinking a `u8` ends: a run of values, each made from the one before
/// by a successful shrinking mutation, has no more steps than its first
/// value is away from zero. The mutation after the last possible step finds
/// zero and reports exhaustion.
pub proof fn lemma_u8_shrinking_ends(mutator: U8, values: Seq<u8>)
    requires
        values.len() > 0,
        forall|i: int|
            0 <= i < values.len() - 1 ==> steps_to(
                mutator,
                true,
                #[trigger] values[i],
                values[i + 1],
            ),
    ensures
        values.len() - 1 <= values[0],
    decreases values.len(),
{
    if values.len() > 1 {
        assert(steps_to(mutator, true, values[0], values[1]));
        let after = choose|after: U8|
            mutated(mutator, true, values[0], after, values[1], Ok(()));
        lemma_u8_shrinks(mutator, values[0], after, values[1], Ok(()));
        let rest = values.subrange(1, values.len() as int);
        assert forall|i: int| 0 <= i < rest.len() - 1 implies steps_to(
            mutator,
            true,
            #[trigger] rest[i],
            rest[i + 1],
        ) by {
            assert(steps_to(mutator, true, values[i + 1], values[i + 2]));
        }
        lemma_u8_shrinking_ends(mutator, rest);
    }
}

/// A `u8` held to a range stays in it: a mutation within `start..=end`
/// succeeds unless the session is shrinking a value that is not above
/// `start`, and then leaves a value of the range, which while shrinking is
/// not above the old one. Where it does not succeed it reports exhaustion,
/// and a range whose start lies above its end is reported as invalid; in
/// both cases the value is left alone.
pub proof fn lemma_u8_stays_in_range(
    ranged: Range<U8, u8>,
    shrink: bool,
    value: u8,
    after: Range<U8, u8>,
    new_value: u8,
    r: Result<(), Error>,
)
    requires
        mutated(ranged, shrink, value, after, new_value, r),
    ensures
        ranged.range@.start > ranged.range@.end ==> {
            &&& r == Err::<(), Error>(Error::of(ErrorKind::InvalidRange))
            &&& new_value == value
        },
        ranged.range@.start <= ranged.range@.end ==> {
            &&& r is Ok <==> !(shrink && value <= ranged.range@.start)
            &&& r is Ok ==> ranged.range@.start <= new_value <= ranged.range@.end
            &&& r is Ok && shrink ==> new_value <= value
            &&& r is Err ==> r == Err::<(), Error>(Error::of(ErrorKind::Exhausted)) && new_value
                == value
        },
{
}

/// A `u8` generated for a range lies in it. Generating fails for a range
/// whose start lies above its end, and may report exhaustion while
/// shrinking, where the value first drawn cannot be moved into the range
/// from above.
pub proof fn lemma_u8_generates_in_range(
    ranged: Range<U8, u8>,
    shrink: bool,
    after: Range<U8, u8>,
    r: Result<u8, Error>,
)
    requires
        ranged.generates(shrink, after, r),
    ensures
        r matches Ok(value) ==> ranged.range@.start <= value <= ranged.range@.end,
        r matches Err(e) ==> if ranged.range@.start > ranged.range@.end {
            e == Error::of(ErrorKind::InvalidRange)
        } else {
            shrink && e == Error::of(ErrorKind::Exhausted)
        },
{
}

/// The default mutator of `u16` values.
#[derive(Clone, Copy, Debug)]
pub struct U16 {
    _private: (),
}

/// A mutator of `u16` values: it redraws the value from the whole type, and
/// while shrinking from the values below it.
pub fn u16() -> (m: U16)
    ensures
        m.wf(),
{
    U16 { _private: () }
}

impl Default for U16 {
    fn default() -> (m: Self)
        ensures
            m.wf(),
    {
        u16()
    }
}

impl DefaultMutate for u16 {
    type DefaultMutate = U16;
}

impl Mutate<u16> for U16 {
    open spec fn wf(&self) -> bool {
        true
    }

    open spec fn rejects(&self, value: u16, shrink: bool) -> Option<ErrorKind> {
        None
    }

    open spec fn candidates(&self, value: u16, shrink: bool) -> nat {
        if shrink && value == 0 {
            0
        } else {
            1
        }
    }

    open spec fn max_candidates(&self) -> nat {
        1
    }

    open spec fn applies(
        &self,
        value: u16,
        shrink: bool,
        index: nat,
        after: Self,
        new_value: u16,
        result: Result<(), Error>,
    ) -> bool {
        &&& result is Ok
        &&& after == *self
        &&& shrink ==> new_value < value
    }

    fn mutate(&mut self, c: &mut Candidates<'_>, value: &mut u16) -> (r: Result<(), Error>) {
        if c.shrink() && *value == 0 {
            return Ok(());
        }
        let redraw = |ctx: &mut Context<'_>, m: &mut U16, v: &mut u16| -> (res: Result<
            (),
            Error,
        >)
            requires
                ctx.shrink() ==> *v != 0,
            ensures
                *final(final(ctx).lent()) == *final(old(ctx).lent()),
                res is Ok,
                *final(m) == *old(m),
                old(ctx).shrink() ==> *final(v) < *old(v),
            {
                *v = if ctx.shrink() {
                    ctx.rng().gen_range_u16(0, *v - 1)
                } else {
                    ctx.rng().gen_u16()
                };
                Ok(())
            };
        c.mutation(self, value, redraw)
    }
}

impl Generate<u16> for U16 {
    open spec fn generates(&self, shrink: bool, after: Self, result: Result<u16, Error>) -> bool {
        result is Ok && after == *self
    }

    fn generate(&mut self, context: &mut Context<'_>) -> (r: Result<u16, Error>) {
        Ok(context.rng().gen_u16())
    }
}

impl MutateInRange<u16> for U16 {
    open spec fn rejects_in_range(
        &self,
        value: u16,
        range: RangeInclusive<u16>,
        shrink: bool,
    ) -> Option<ErrorKind> {
        if range@.start > range@.end {
            Some(ErrorKind::InvalidRange)
        } else {
            None
        }
    }

    open spec fn candidates_in_range(
        &self,
        value: u16,
        range: RangeInclusive<u16>,
        shrink: bool,
    ) -> nat {
        if range@.start > range@.end || (shrink && value <= range@.start) {
            0
        } else {
            1
        }
    }

    open spec fn applies_in_range(
        &self,
        value: u16,
        range: RangeInclusive<u16>,
        shrink: bool,
        index: nat,
        after: Self,
        new_value: u16,
        result: Result<(), Error>,
    ) -> bool {
        &&& result is Ok
        &&& after == *self
        &&& range@.start <= new_value <= range@.end
        &&& shrink ==> new_value <= value
    }

    fn mutate_in_range(
        &mut self,
        c: &mut Candidates<'_>,
        value: &mut u16,
        range: &RangeInclusive<u16>,
    ) -> (r: Result<(), Error>) {
        let start = *range.start();
        let end = *range.end();

        if start > end {
            return Err(Error::invalid_range());
        }
        if *value <= start && c.shrink() {
            return Ok(());
        }
        let redraw = |ctx: &mut Context<'_>, m: &mut U16, v: &mut u16| -> (res: Result<
            (),
            Error,
        >)
            requires
                start <= end,
                ctx.shrink() ==> start < *v,
            ensures
                *final(final(ctx).lent()) == *final(old(ctx).lent()),
                res is Ok,
                *final(m) == *old(m),
                start <= *final(v) <= end,
                old(ctx).shrink() ==> *final(v) <= *old(v),
            {
                let end = if ctx.shrink() && *v < end {
                    *v
                } else {
                    end
                };
                *v = ctx.rng().gen_range_u16(start, end);
                Ok(())
            };
        c.mutation(self, value, redraw)
    }
}

/// Shrinking a `u16` makes progress: the mutation succeeds exactly for a
/// value other than zero, and then leaves a value strictly below it.
/// For zero it reports exhaustion and leaves the value alone.
pub proof fn lemma_u16_shrinks(
    mutator: U16,
    value: u16,
    after: U16,
    new_value: u16,
    r: Result<(), Error>,
)
    requires
        mutated(mutator, true, value, after, new_value, r),
    ensures
        r is Ok <==> value != 0,
        r is Ok ==> new_value < value,
        r is Err ==> r == Err::<(), Error>(Error::of(ErrorKind::Exhausted)) && new_value == value,
{
}

/// Shrinking a `u16` ends: a run of values, each made from the one before
/// by a successful shrinking mutation, has no more steps than its first
/// value is away from zero. The mutation after the last possible step finds
/// zero and reports exhaustion.
pub proof fn lemma_u16_shrinking_ends(mutator: U16, values: Seq<u16>)
    requires
        values.len() > 0,
        forall|i: int|
            0 <= i < values.len() - 1 ==> steps_to(
                mutator,
                true,
                #[trigger] values[i],
                values[i + 1],
            ),
    ensures
        values.len() - 1 <= values[0],
    decreases values.len(),
{
    if values.len() > 1 {
        assert(steps_to(mutator, true, values[0], values[1]));
        let after = choose|after: U16|
            mutated(mutator, true, values[0], after, values[1], Ok(()));
        lemma_u16_shrinks(mutator, values[0], after, values[1], Ok(()));
        let rest = values.subrange(1, values.len() as int);
        assert forall|i: int| 0 <= i < rest.len() - 1 implies steps_to(
            mutator,
            true,
            #[trigger] rest[i],
            rest[i + 1],
        ) by {
            assert(steps_to(mutator, true, values[i + 1], values[i + 2]));
        }
        lemma_u16_shrinking_ends(mutator, rest);
    }
}

/// A `u16` held to a range stays in it: a mutation within `start..=end`
/// succeeds unless the session is shrinking a value that is not above
/// `start`, and then leaves a value of the range, which while shrinking is
/// not above the old one. Where it does not succeed it reports exhaustion,
/// and a range whose start lies above its end is reported as invalid; in
/// both cases the value is left alone.
pub proof fn lemma_u16_stays_in_range(
    ranged: Range<U16, u16>,
    shrink: bool,
    value: u16,
    after: Range<U16, u16>,
    new_value: u16,
    r: Result<(), Error>,
)
    requires
        mutated(ranged, shrink, value, after, new_value, r),
    ensures
        ranged.range@.start > ranged.range@.end ==> {
            &&& r == Err::<(), Error>(Error::of(ErrorKind::InvalidRange))
            &&& new_value == value
        },
        ranged.range@.start <= ranged.range@.end ==> {
            &&& r is Ok <==> !(shrink && value <= ranged.range@.start)
            &&& r is Ok ==> ranged.range@.start <= new_value <= ranged.range@.end
            &&& r is Ok && shrink ==> new_value <= value
            &&& r is Err ==> r == Err::<(), Error>(Error::of(ErrorKind::Exhausted)) && new_value
                == value
        },
{
}

/// A `u16` generated for a range lies in it. Generating fails for a range
/// whose start lies above its end, and may report exhaustion while
/// shrinking, where the value first drawn cannot be moved into the range
/// from above.
pub proof fn lemma_u16_generates_in_range(
    ranged: Range<U16, u16>,
    shrink: bool,
    after: Range<U16, u16>,
    r: Result<u16, Error>,
)
    requires
        ranged.generates(shrink, after, r),
    ensures
        r matches Ok(value) ==> ranged.range@.start <= value <= ranged.range@.end,
        r matches Err(e) ==> if ranged.range@.start > ranged.range@.end {
            e == Error::of(ErrorKind::InvalidRange)
        } else {
            shrink && e == Error::of(ErrorKind::Exhausted)
        },
{
}

/// The default mutator of `u32` values.
#[derive(Clone, Copy, Debug)]
pub struct U32 {
    _private: (),
}

/// A mutator of `u32` values: it redraws the value from the whole type, and
/// while shrinking from the values below it.
pub fn u32() -> (m: U32)
    ensures
        m.wf(),
{
    U32 { _private: () }
}

impl Default for U32 {
    fn default() -> (m: Self)
        ensures
            m.wf(),
    {
        u32()
    }
}

impl DefaultMutate for u32 {
    type DefaultMutate = U32;
}

impl Mutate<u32> for U32 {
    open spec fn wf(&self) -> bool {
        true
    }

    open spec fn rejects(&self, value: u32, shrink: bool) -> Option<ErrorKind> {
        None
    }

    open spec fn candidates(&self, value: u32, shrink: bool) -> nat {
        if shrink && value == 0 {
            0
        } else {
            1
        }
    }

    open spec fn max_candidates(&self) -> nat {
        1
    }

    open spec fn applies(
        &self,
        value: u32,
        shrink: bool,
        index: nat,
        after: Self,
        new_value: u32,
        result: Result<(), Error>,
    ) -> bool {
        &&& result is Ok
        &&& after == *self
        &&& shrink ==> new_value < value
    }

    fn mutate(&mut self, c: &mut Candidates<'_>, value: &mut u32) -> (r: Result<(), Error>) {
        if c.shrink() && *value == 0 {
            return Ok(());
        }
        let redraw = |ctx: &mut Context<'_>, m: &mut U32, v: &mut u32| -> (res: Result<
            (),
            Error,
        >)
            requires
                ctx.shrink() ==> *v != 0,
            ensures
                *final(final(ctx).lent()) == *final(old(ctx).lent()),
                res is Ok,
                *final(m) == *old(m),
                old(ctx).shrink() ==> *final(v) < *old(v),
            {
                *v = if ctx.shrink() {
                    ctx.rng().gen_range_u32(0, *v - 1)
                } else {
                    ctx.rng().gen_u32()
                };
                Ok(())
            };
        c.mutation(self, value, redraw)
    }
}

impl Generate<u32> for U32 {
    open spec fn generates(&self, shrink: bool, after: Self, result: Result<u32, Error>) -> bool {
        result is Ok && after == *self
    }

    fn generate(&mut self, context: &mut Context<'_>) -> (r: Result<u32, Error>) {
        Ok(context.rng().gen_u32())
    }
}

impl MutateInRange<u32> for U32 {
    open spec fn rejects_in_range(
        &self,
        value: u32,
        range: RangeInclusive<u32>,
        shrink: bool,
    ) -> Option<ErrorKind> {
        if range@.start > range@.end {
            Some(ErrorKind::InvalidRange)
        } else {
            None
        }
    }

    open spec fn candidates_in_range(
        &self,
        value: u32,
        range: RangeInclusive<u32>,
        shrink: bool,
    ) -> nat {
        if range@.start > range@.end || (shrink && value <= range@.start) {
            0
        } else {
            1
        }
    }

    open spec fn applies_in_range(
        &self,
        value: u32,
        range: RangeInclusive<u32>,
        shrink: bool,
        index: nat,
        after: Self,
        new_value: u32,
        result: Result<(), Error>,
    ) -> bool {
        &&& result is Ok
        &&& after == *self
        &&& range@.start <= new_value <= range@.end
        &&& shrink ==> new_value <= value
    }

    fn mutate_in_range(
        &mut self,
        c: &mut Candidates<'_>,
        value: &mut u32,
        range: &RangeInclusive<u32>,
    ) -> (r: Result<(), Error>) {
        let start = *range.start();
        let end = *range.end();

        if start > end {
            return Err(Error::invalid_range());
        }
        if *value <= start && c.shrink() {
            return Ok(());
        }
        let redraw = |ctx: &mut Context<'_>, m: &mut U32, v: &mut u32| -> (res: Result<
            (),
            Error,
        >)
            requires
                start <= end,
                ctx.shrink() ==> start < *v,
            ensures
                *final(final(ctx).lent()) == *final(old(ctx).lent()),
                res is Ok,
                *final(m) == *old(m),
                start <= *final(v) <= end,
                old(ctx).shrink() ==> *final(v) <= *old(v),
            {
                let end = if ctx.shrink() && *v < end {
                    *v
                } else {
                    end
                };
                *v = ctx.rng().gen_range_u32(start, end);
                Ok(())
            };
        c.mutation(self, value, redraw)
    }
}

/// Shrinking a `u32` makes progress: the mutation succeeds exactly for a
/// value other than zero, and then leaves a value strictly below it.
/// For zero it reports exhaustion and leaves the value alone.
pub proof fn lemma_u32_shrinks(
    mutator: U32,
    value: u32,
    after: U32,
    new_value: u32,
    r: Result<(), Error>,
)
    requires
        mutated(mutator, true, value, after, new_value, r),
    ensures
        r is Ok <==> value != 0,
        r is Ok ==> new_value < value,
        r is Err ==> r == Err::<(), Error>(Error::of(ErrorKind::Exhausted)) && new_value == value,
{
}

/// Shrinking a `u32` ends: a run of values, each made from the one before
/// by a successful shrinking mutation, has no more steps than its first
/// value is away from zero. The mutation after the last possible step finds
/// zero and reports exhaustion.
pub proof fn lemma_u32_shrinking_ends(mutator: U32, values: Seq<u32>)
    requires
        values.len() > 0,
        forall|i: int|
            0 <= i < values.len() - 1 ==> steps_to(
                mutator,
                true,
                #[trigger] values[i],
                values[i + 1],
            ),
    ensures
        values.len() - 1 <= values[0],
    decreases values.len(),
{
    if values.len() > 1 {
        assert(steps_to(mutator, true, values[0], values[1]));
        let after = choose|after: U32|
            mutated(mutator, true, values[0], after, values[1], Ok(()));
        lemma_u32_shrinks(mutator, values[0], after, values[1], Ok(()));
        let rest = values.subrange(1, values.len() as int);
        assert forall|i: int| 0 <= i < rest.len() - 1 implies steps_to(
            mutator,
            true,
            #[trigger] rest[i],
            rest[i + 1],
        ) by {
            assert(steps_to(mutator, true, values[i + 1], values[i + 2]));
        }
        lemma_u32_shrinking_ends(mutator, rest);
    }
}

/// A `u32` held to a range stays in it: a mutation within `start..=end`
/// succeeds unless the session is shrinking a value that is not above
/// `start`, and then leaves a value of the range, which while shrinking is
/// not above the old one. Where it does not succeed it reports exhaustion,
/// and a range whose start lies above its end is reported as invalid; in
/// both cases the value is left alone.
pub proof fn lemma_u32_stays_in_range(
    ranged: Range<U32, u32>,
    shrink: bool,
    value: u32,
    after: Range<U32, u32>,
    new_value: u32,
    r: Result<(), Error>,
)
    requires
        mutated(ranged, shrink, value, after, new_value, r),
    ensures
        ranged.range@.start > ranged.range@.end ==> {
            &&& r == Err::<(), Error>(Error::of(ErrorKind::InvalidRange))
            &&& new_value == value
        },
        ranged.range@.start <= ranged.range@.end ==> {
            &&& r is Ok <==> !(shrink && value <= ranged.range@.start)
            &&& r is Ok ==> ranged.range@.start <= new_value <= ranged.range@.end
            &&& r is Ok && shrink ==> new_value <= value
            &&& r is Err ==> r == Err::<(), Error>(Error::of(ErrorKind::Exhausted)) && new_value
                == value
        },
{
}

/// A `u32` generated for a range lies in it. Generating fails for a range
/// whose start lies above its end, and may report exhaustion while
/// shrinking, where the value first drawn cannot be moved into the range
/// from above.
pub proof fn lemma_u32_generates_in_range(
    ranged: Range<U32, u32>,
    shrink: bool,
    after: Range<U32, u32>,
    r: Result<u32, Error>,
)
    requires
        ranged.generates(shrink, after, r),
    ensures
        r matches Ok(value) ==> ranged.range@.start <= value <= ranged.range@.end,
        r matches Err(e) ==> if ranged.range@.start > ranged.range@.end {
            e == Error::of(ErrorKind::InvalidRange)
        } else {
            shrink && e == Error::of(ErrorKind::Exhausted)
        },
{
}

/// The default mutator of `u64` values.
#[derive(Clone, Copy, Debug)]
pub struct U64 {
    _private: (),
}

/// A mutator of `u64` values: it redraws the value from the whole type, and
/// while shrinking from the values below it.
pub fn u64() -> (m: U64)
    ensures
        m.wf(),
{
    U64 { _private: () }
}

impl Default for U64 {
    fn default() -> (m: Self)
        ensures
            m.wf(),
    {
        u64()
    }
}

impl DefaultMutate for u64 {
    type DefaultMutate = U64;
}

impl Mutate<u64> for U64 {
    open spec fn wf(&self) -> bool {
        true
    }

    open spec fn rejects(&self, value: u64, shrink: bool) -> Option<ErrorKind> {
        None
    }

    open spec fn candidates(&self, value: u64, shrink: bool) -> nat {
        if shrink && value == 0 {
            0
        } else {
            1
        }
    }

    open spec fn max_candidates(&self) -> nat {
        1
    }

    open spec fn applies(
        &self,
        value: u64,
        shrink: bool,
        index: nat,
        after: Self,
        new_value: u64,
        result: Result<(), Error>,
    ) -> bool {
        &&& result is Ok
        &&& after == *self
        &&& shrink ==> new_value < value
    }

    fn mutate(&mut self, c: &mut Candidates<'_>, value: &mut u64) -> (r: Result<(), Error>) {
        if c.shrink() && *value == 0 {
            return Ok(());
        }
        let redraw = |ctx: &mut Context<'_>, m: &mut U64, v: &mut u64| -> (res: Result<
            (),
            Error,
        >)
            requires
                ctx.shrink() ==> *v != 0,
            ensures
                *final(final(ctx).lent()) == *final(old(ctx).lent()),
                res is Ok,
                *final(m) == *old(m),
                old(ctx).shrink() ==> *final(v) < *old(v),
            {
                *v = if ctx.shrink() {
                    ctx.rng().gen_range_u64(0, *v - 1)
                } else {
                    ctx.rng().gen_u64()
                };
                Ok(())
            };
        c.mutation(self, value, redraw)
    }
}

impl Generate<u64> for U64 {
    open spec fn generates(&self, shrink: bool, after: Self, result: Result<u64, Error>) -> bool {
        result is Ok && after == *self
    }

    fn generate(&mut self, context: &mut Context<'_>) -> (r: Result<u64, Error>) {
        Ok(context.rng().gen_u64())
    }
}

impl MutateInRange<u64> for U64 {
    open spec fn rejects_in_range(
        &self,
        value: u64,
        range: RangeInclusive<u64>,
        shrink: bool,
    ) -> Option<ErrorKind> {
        if range@.start > range@.end {
            Some(ErrorKind::InvalidRange)
        } else {
            None
        }
    }

    open spec fn candidates_in_range(
        &self,
        value: u64,
        range: RangeInclusive<u64>,
        shrink: bool,
    ) -> nat {
        if range@.start > range@.end || (shrink && value <= range@.start) {
            0
        } else {
            1
        }
    }

    open spec fn applies_in_range(
        &self,
        value: u64,
        range: RangeInclusive<u64>,
        shrink: bool,
        index: nat,
        after: Self,
        new_value: u64,
        result: Result<(), Error>,
    ) -> bool {
        &&& result is Ok
        &&& after == *self
        &&& range@.start <= new_value <= range@.end
        &&& shrink ==> new_value <= value
    }

    fn mutate_in_range(
        &mut self,
        c: &mut Candidates<'_>,
        value: &mut u64,
        range: &RangeInclusive<u64>,
    ) -> (r: Result<(), Error>) {
        let start = *range.start();
        let end = *range.end();

        if start > end {
            return Err(Error::invalid_range());
        }
        if *value <= start && c.shrink() {
            return Ok(());
        }
        let redraw = |ctx: &mut Context<'_>, m: &mut U64, v: &mut u64| -> (res: Result<
            (),
            Error,
        >)
            requires
                start <= end,
                ctx.shrink() ==> start < *v,
            ensures
                *final(final(ctx).lent()) == *final(old(ctx).lent()),
                res is Ok,
                *final(m) == *old(m),
                start <= *final(v) <= end,
                old(ctx).shrink() ==> *final(v) <= *old(v),
            {
                let end = if ctx.shrink() && *v < end {
                    *v
                } else {
                    end
                };
                *v = ctx.rng().gen_range_u64(start, end);
                Ok(())
            };
        c.mutation(self, value, redraw)
    }
}

/// Shrinking a `u64` makes progress: the mutation succeeds exactly for a
/// value other than zero, and then leaves a value strictly below it.
/// For zero it reports exhaustion and leaves the value alone.
pub proof fn lemma_u64_shrinks(
    mutator: U64,
    value: u64,
    after: U64,
    new_value: u64,
    r: Result<(), Error>,
)
    requires
        mutated(mutator, true, value, after, new_value, r),
    ensures
        r is Ok <==> value != 0,
        r is Ok ==> new_value < value,
        r is Err ==> r == Err::<(), Error>(Error::of(ErrorKind::Exhausted)) && new_value == value,
{
}

/// Shrinking a `u64` ends: a run of values, each made from the one before
/// by a successful shrinking mutation, has no more steps than its first
/// value is away from zero. The mutation after the last possible step finds
/// zero and reports exhaustion.
pub proof fn lemma_u64_shrinking_ends(mutator: U64, values: Seq<u64>)
    requires
        values.len() > 0,
        forall|i: int|
            0 <= i < values.len() - 1 ==> steps_to(
                mutator,
                true,
                #[trigger] values[i],
                values[i + 1],
            ),
    ensures
        values.len() - 1 <= values[0],
    decreases values.len(),
{
    if values.len() > 1 {
        assert(steps_to(mutator, true, values[0], values[1]));
        let after = choose|after: U64|
            mutated(mutator, true, values[0], after, values[1], Ok(()));
        lemma_u64_shrinks(mutator, values[0], after, values[1], Ok(()));
        let rest = values.subrange(1, values.len() as int);
        assert forall|i: int| 0 <= i < rest.len() - 1 implies steps_to(
            mutator,
            true,
            #[trigger] rest[i],
            rest[i + 1],
        ) by {
            assert(steps_to(mutator, true, values[i + 1], values[i + 2]));
        }
        lemma_u64_shrinking_ends(mutator, rest);
    }
}

/// A `u64` held to a range stays in it: a mutation within `start..=end`
/// succeeds unless the session is shrinking a value that is not above
/// `start`, and then leaves a value of the range, which while shrinking is
/// not above the old one. Where it does not succeed it reports exhaustion,
/// and a range whose start lies above its end is reported as invalid; in
/// both cases the value is left alone.
pub proof fn lemma_u64_stays_in_range(
    ranged: Range<U64, u64>,
    shrink: bool,
    value: u64,
    after: Range<U64, u64>,
    new_value: u64,
    r: Result<(), Error>,
)
    requires
        mutated(ranged, shrink, value, after, new_value, r),
    ensures
        ranged.range@.start > ranged.range@.end ==> {
            &&& r == Err::<(), Error>(Error::of(ErrorKind::InvalidRange))
            &&& new_value == value
        },
        ranged.range@.start <= ranged.range@.end ==> {
            &&& r is Ok <==> !(shrink && value <= ranged.range@.start)
            &&& r is Ok ==> ranged.range@.start <= new_value <= ranged.range@.end
            &&& r is Ok && shrink ==> new_value <= value
            &&& r is Err ==> r == Err::<(), Error>(Error::of(ErrorKind::Exhausted)) && new_value
                == value
        },
{
}

/// A `u64` generated for a range lies in it. Generating fails for a range
/// whose start lies above its end, and may report exhaustion while
/// shrinking, where the value first drawn cannot be moved into the range
/// from above.
pub proof fn lemma_u64_generates_in_range(
    ranged: Range<U64, u64>,
    shrink: bool,
    after: Range<U64, u64>,
    r: Result<u64, Error>,
)
    requires
        ranged.generates(shrink, after, r),
    ensures
        r matches Ok(value) ==> ranged.range@.start <= value <= ranged.range@.end,
        r matches Err(e) ==> if ranged.range@.start > ranged.range@.end {
            e == Error::of(ErrorKind::InvalidRange)
        } else {
            shrink && e == Error::of(ErrorKind::Exhausted)
        },
{
}

/// The default mutator of `u128` values.
#[derive(Clone, Copy, Debug)]
pub struct U128 {
    _private: (),
}

/// A mutator of `u128` values: it redraws the value from the whole type, and
/// while shrinking from the values below it.
pub fn u128() -> (m: U128)
    ensures
        m.wf(),
{
    U128 { _private: () }
}

impl Default for U128 {
    fn default() -> (m: Self)
        ensures
            m.wf(),
    {
        u128()
    }
}

impl DefaultMutate for u128 {
    type DefaultMutate = U128;
}

impl Mutate<u128> for U128 {
    open spec fn wf(&self) -> bool {
        true
    }

    open spec fn rejects(&self, value: u128, shrink: bool) -> Option<ErrorKind> {
        None
    }

    open spec fn candidates(&self, value: u128, shrink: bool) -> nat {
        if shrink && value == 0 {
            0
        } else {
            1
        }
    }

    open spec fn max_candidates(&self) -> nat {
        1
    }

    open spec fn applies(
        &self,
        value: u128,
        shrink: bool,
        index: nat,
        after: Self,
        new_value: u128,
        result: Result<(), Error>,
    ) -> bool {
        &&& result is Ok
        &&& after == *self
        &&& shrink ==> new_value < value
    }

    fn mutate(&mut self, c: &mut Candidates<'_>, value: &mut u128) -> (r: Result<(), Error>) {
        if c.shrink() && *value == 0 {
            return Ok(());
        }
        let redraw = |ctx: &mut Context<'_>, m: &mut U128, v: &mut u128| -> (res: Result<
            (),
            Error,
        >)
            requires
                ctx.shrink() ==> *v != 0,
            ensures
                *final(final(ctx).lent()) == *final(old(ctx).lent()),
                res is Ok,
                *final(m) == *old(m),
                old(ctx).shrink() ==> *final(v) < *old(v),
            {
                *v = if ctx.shrink() {
                    ctx.rng().gen_range_u128(0, *v - 1)
                } else {
                    ctx.rng().gen_u128()
                };
                Ok(())
            };
        c.mutation(self, value, redraw)
    }
}

impl Generate<u128> for U128 {
    open spec fn generates(&self, shrink: bool, after: Self, result: Result<u128, Error>) -> bool {
        result is Ok && after == *self
    }

    fn generate(&mut self, context: &mut Context<'_>) -> (r: Result<u128, Error>) {
        Ok(context.rng().gen_u128())
    }
}

impl MutateInRange<u128> for U128 {
    open spec fn rejects_in_range(
        &self,
        value: u128,
        range: RangeInclusive<u128>,
        shrink: bool,
    ) -> Option<ErrorKind> {
        if range@.start > range@.end {
            Some(ErrorKind::InvalidRange)
        } else {
            None
        }
    }

    open spec fn candidates_in_range(
        &self,
        value: u128,
        range: RangeInclusive<u128>,
        shrink: bool,
    ) -> nat {
        if range@.start > range@.end || (shrink && value <= range@.start) {
            0
        } else {
            1
        }
    }

    open spec fn applies_in_range(
        &self,
        value: u128,
        range: RangeInclusive<u128>,
        shrink: bool,
        index: nat,
        after: Self,
        new_value: u128,
        result: Result<(), Error>,
    ) -> bool {
        &&& result is Ok
        &&& after == *self
        &&& range@.start <= new_value <= range@.end
        &&& shrink ==> new_value <= value
    }

    fn mutate_in_range(
        &mut self,
        c: &mut Candidates<'_>,
        value: &mut u128,
        range: &RangeInclusive<u128>,
    ) -> (r: Result<(), Error>) {
        let start = *range.start();
        let end = *range.end();

        if start > end {
            return Err(Error::invalid_range());
        }
        if *value <= start && c.shrink() {
            return Ok(());
        }
        let redraw = |ctx: &mut Context<'_>, m: &mut U128, v: &mut u128| -> (res: Result<
            (),
            Error,
        >)
            requires
                start <= end,
                ctx.shrink() ==> start < *v,
            ensures
                *final(final(ctx).lent()) == *final(old(ctx).lent()),
                res is Ok,
                *final(m) == *old(m),
                start <= *final(v) <= end,
                old(ctx).shrink() ==> *final(v) <= *old(v),
            {
                let end = if ctx.shrink() && *v < end {
                    *v
                } else {
                    end
                };
                *v = ctx.rng().gen_range_u128(start, end);
                Ok(())
            };
        c.mutation(self, value, redraw)
    }
}

/// Shrinking a `u128` makes progress: the mutation succeeds exactly for a
/// value other than zero, and then leaves a value strictly below it.
/// For zero it reports exhaustion and leaves the value alone.
pub proof fn lemma_u128_shrinks(
    mutator: U128,
    value: u128,
    after: U128,
    new_value: u128,
    r: Result<(), Error>,
)
    requires
        mutated(mutator, true, value, after, new_value, r),
    ensures
        r is Ok <==> value != 0,
        r is Ok ==> new_value < value,
        r is Err ==> r == Err::<(), Error>(Error::of(ErrorKind::Exhausted)) && new_value == value,
{
}

/// Shrinking a `u128` ends: a run of values, each made from the one before
/// by a successful shrinking mutation, has no more steps than its first
/// value is away from zero. The mutation after the last possible step finds
/// zero and reports exhaustion.
pub proof fn lemma_u128_shrinking_ends(mutator: U128, values: Seq<u128>)
    requires
        values.len() > 0,
        forall|i: int|
            0 <= i < values.len() - 1 ==> steps_to(
                mutator,
                true,
                #[trigger] values[i],
                values[i + 1],
            ),
    ensures
        values.len() - 1 <= values[0],
    decreases values.len(),
{
    if values.len() > 1 {
        assert(steps_to(mutator, true, values[0], values[1]));
        let after = choose|after: U128|
            mutated(mutator, true, values[0], after, values[1], Ok(()));
        lemma_u128_shrinks(mutator, values[0], after, values[1], Ok(()));
        let rest = values.subrange(1, values.len() as int);
        assert forall|i: int| 0 <= i < rest.len() - 1 implies steps_to(
            mutator,
            true,
            #[trigger] rest[i],
            rest[i + 1],
        ) by {
            assert(steps_to(mutator, true, values[i + 1], values[i + 2]));
        }
        lemma_u128_shrinking_ends(mutator, rest);
    }
}

/// A `u128` held to a range stays in it: a mutation within `start..=end`
/// succeeds unless the session is shrinking a value that is not above
/// `start`, and then leaves a value of the range, which while shrinking is
/// not above the old one. Where it does not succeed it reports exhaustion,
/// and a range whose start lies above its end is reported as invalid; in
/// both cases the value is left alone.
pub proof fn lemma_u128_stays_in_range(
    ranged: Range<U128, u128>,
    shrink: bool,
    value: u128,
    after: Range<U128, u128>,
    new_value: u128,
    r: Result<(), Error>,
)
    requires
        mutated(ranged, shrink, value, after, new_value, r),
    ensures
        ranged.range@.start > ranged.range@.end ==> {
            &&& r == Err::<(), Error>(Error::of(ErrorKind::InvalidRange))
            &&& new_value == value
        },
        ranged.range@.start <= ranged.range@.end ==> {
            &&& r is Ok <==> !(shrink && value <= ranged.range@.start)
            &&& r is Ok ==> ranged.range@.start <= new_value <= ranged.range@.end
            &&& r is Ok && shrink ==> new_value <= value
            &&& r is Err ==> r == Err::<(), Error>(Error::of(ErrorKind::Exhausted)) && new_value
                == value
        },
{
}

/// A `u128` generated for a range lies in it. Generating fails for a range
/// whose start lies above its end, and may report exhaustion while
/// shrinking, where the value first drawn cannot be moved into the range
/// from above.
pub proof fn lemma_u128_generates_in_range(
    ranged: Range<U128, u128>,
    shrink: bool,
    after: Range<U128, u128>,
    r: Result<u128, Error>,
)
    requires
        ranged.generates(shrink, after, r),
    ensures
        r matches Ok(value) ==> ranged.range@.start <= value <= ranged.range@.end,
        r matches Err(e) ==> if ranged.range@.start > ranged.range@.end {
            e == Error::of(ErrorKind::InvalidRange)
        } else {
            shrink && e == Error::of(ErrorKind::Exhausted)
        },
{
}

/// The default mutator of `usize` values.
#[derive(Clone, Copy, Debug)]
pub struct Usize {
    _private: (),
}

/// A mutator of `usize` values: it redraws the value from the whole type, and
/// while shrinking from the values below it.
pub fn usize() -> (m: Usize)
    ensures
        m.wf(),
{
    Usize { _private: () }
}

impl Default for Usize {
    fn default() -> (m: Self)
        ensures
            m.wf(),
    {
        usize()
    }
}

impl DefaultMutate for usize {
    type DefaultMutate = Usize;
}

impl Mutate<usize> for Usize {
    open spec fn wf(&self) -> bool {
        true
    }

    open spec fn rejects(&self, value: usize, shrink: bool) -> Option<ErrorKind> {
        None
    }

    open spec fn candidates(&self, value: usize, shrink: bool) -> nat {
        if shrink && value == 0 {
            0
        } else {
            1
        }
    }

    open spec fn max_candidates(&self) -> nat {
        1
    }

    open spec fn applies(
        &self,
        value: usize,
        shrink: bool,
        index: nat,
        after: Self,
        new_value: usize,
        result: Result<(), Error>,
    ) -> bool {
        &&& result is Ok
        &&& after == *self
        &&& shrink ==> new_value < value
    }

    fn mutate(&mut self, c: &mut Candidates<'_>, value: &mut usize) -> (r: Result<(), Error>) {
        if c.shrink() && *value == 0 {
            return Ok(());
        }
        let redraw = |ctx: &mut Context<'_>, m: &mut Usize, v: &mut usize| -> (res: Result<
            (),
            Error,
        >)
            requires
                ctx.shrink() ==> *v != 0,
            ensures
                *final(final(ctx).lent()) == *final(old(ctx).lent()),
                res is Ok,
                *final(m) == *old(m),
                old(ctx).shrink() ==> *final(v) < *old(v),
            {
                *v = if ctx.shrink() {
                    ctx.rng().gen_range_usize(0, *v - 1)
                } else {
                    ctx.rng().gen_usize()
                };
                Ok(())
            };
        c.mutation(self, value, redraw)
    }
}

impl Generate<usize> for Usize {
    open spec fn generates(&self, shrink: bool, after: Self, result: Result<usize, Error>) -> bool {
        result is Ok && after == *self
    }

    fn generate(&mut self, context: &mut Context<'_>) -> (r: Result<usize, Error>) {
        Ok(context.rng().gen_usize())
    }
}

impl MutateInRange<usize> for Usize {
    open spec fn rejects_in_range(
        &self,
        value: usize,
        range: RangeInclusive<usize>,
        shrink: bool,
    ) -> Option<ErrorKind> {
        if range@.start > range@.end {
            Some(ErrorKind::InvalidRange)
        } else {
            None
        }
    }

    open spec fn candidates_in_range(
        &self,
        value: usize,
        range: RangeInclusive<usize>,
        shrink: bool,
    ) -> nat {
        if range@.start > range@.end || (shrink && value <= range@.start) {
            0
        } else {
            1
        }
    }

    open spec fn applies_in_range(
        &self,
        value: usize,
        range: RangeInclusive<usize>,
        shrink: bool,
        index: nat,
        after: Self,
        new_value: usize,
        result: Result<(), Error>,
    ) -> bool {
        &&& result is Ok
        &&& after == *self
        &&& range@.start <= new_value <= range@.end
        &&& shrink ==> new_value <= value
    }

    fn mutate_in_range(
        &mut self,
        c: &mut Candidates<'_>,
        value: &mut usize,
        range: &RangeInclusive<usize>,
    ) -> (r: Result<(), Error>) {
        let start = *range.start();
        let end = *range.end();

        if start > end {
            return Err(Error::invalid_range());
        }
        if *value <= start && c.shrink() {
            return Ok(());
        }
        let redraw = |ctx: &mut Context<'_>, m: &mut Usize, v: &mut usize| -> (res: Result<
            (),
            Error,
        >)
            requires
                start <= end,
                ctx.shrink() ==> start < *v,
            ensures
                *final(final(ctx).lent()) == *final(old(ctx).lent()),
                res is Ok,
                *final(m) == *old(m),
                start <= *final(v) <= end,
                old(ctx).shrink() ==> *final(v) <= *old(v),
            {
                let end = if ctx.shrink() && *v < end {
                    *v
                } else {
                    end
                };
                *v = ctx.rng().gen_range_usize(start, end);
                Ok(())
            };
        c.mutation(self, value, redraw)
    }
}

/// Shrinking a `usize` makes progress: the mutation succeeds exactly for a
/// value other than zero, and then leaves a value strictly below it.
/// For zero it reports exhaustion and leaves the value alone.
pub proof fn lemma_usize_shrinks(
    mutator: Usize,
    value: usize,
    after: Usize,
    new_value: usize,
    r: Result<(), Error>,
)
    requires
        mutated(mutator, true, value, after, new_value, r),
    ensures
        r is Ok <==> value != 0,
        r is Ok ==> new_value < value,
        r is Err ==> r == Err::<(), Error>(Error::of(ErrorKind::Exhausted)) && new_value == value,
{
}

/// Shrinking a `usize` ends: a run of values, each made from the one before
/// by a successful shrinking mutation, has no more steps than its first
/// value is away from zero. The mutation after the last possible step finds
/// zero and reports exhaustion.
pub proof fn lemma_usize_shrinking_ends(mutator: Usize, values: Seq<usize>)
    requires
        values.len() > 0,
        forall|i: int|
            0 <= i < values.len() - 1 ==> steps_to(
                mutator,
                true,
                #[trigger] values[i],
                values[i + 1],
            ),
    ensures
        values.len() - 1 <= values[0],
    decreases values.len(),
{
    if values.len() > 1 {
        assert(steps_to(mutator, true, values[0], values[1]));
        let after = choose|after: Usize|
            mutated(mutator, true, values[0], after, values[1], Ok(()));
        lemma_usize_shrinks(mutator, values[0], after, values[1], Ok(()));
        let rest = values.subrange(1, values.len() as int);
        assert forall|i: int| 0 <= i < rest.len() - 1 implies steps_to(
            mutator,
            true,
            #[trigger] rest[i],
            rest[i + 1],
        ) by {
            assert(steps_to(mutator, true, values[i + 1], values[i + 2]));
        }
        lemma_usize_shrinking_ends(mutator, rest);
    }
}

/// A `usize` held to a range stays in it: a mutation within `start..=end`
/// succeeds unless the session is shrinking a value that is not above
/// `start`, and then leaves a value of the range, which while shrinking is
/// not above the old one. Where it does not succeed it reports exhaustion,
/// and a range whose start lies above its end is reported as invalid; in
/// both cases the value is left alone.
pub proof fn lemma_usize_stays_in_range(
    ranged: Range<Usize, usize>,
    shrink: bool,
    value: usize,
    after: Range<Usize, usize>,
    new_value: usize,
    r: Result<(), Error>,
)
    requires
        mutated(ranged, shrink, value, after, new_value, r),
    ensures
        ranged.range@.start > ranged.range@.end ==> {
            &&& r == Err::<(), Error>(Error::of(ErrorKind::InvalidRange))
            &&& new_value == value
        },
        ranged.range@.start <= ranged.range@.end ==> {
            &&& r is Ok <==> !(shrink && value <= ranged.range@.start)
            &&& r is Ok ==> ranged.range@.start <= new_value <= ranged.range@.end
            &&& r is Ok && shrink ==> new_value <= value
            &&& r is Err ==> r == Err::<(), Error>(Error::of(ErrorKind::Exhausted)) && new_value
                == value
        },
{
}

/// A `usize` generated for a range lies in it. Generating fails for a range
/// whose start lies above its end, and may report exhaustion while
/// shrinking, where the value first drawn cannot be moved into the range
/// from above.
pub proof fn lemma_usize_generates_in_range(
    ranged: Range<Usize, usize>,
    shrink: bool,
    after: Range<Usize, usize>,
    r: Result<usize, Error>,
)
    requires
        ranged.generates(shrink, after, r),
    ensures
        r matches Ok(value) ==> ranged.range@.start <= value <= ranged.range@.end,
        r matches Err(e) ==> if ranged.range@.start > ranged.range@.end {
            e == Error::of(ErrorKind::InvalidRange)
        } else {
            shrink && e == Error::of(ErrorKind::Exhausted)
        },
{
}

} // verus!
