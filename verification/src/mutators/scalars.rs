//! Mutators of `bool`, `char` and the unit type.

use crate::context::{mutated, Candidates, Context};
use crate::error::{Error, ErrorKind};
use crate::laws::steps_to;
use crate::mutate::{DefaultMutate, Generate, Mutate, MutateInRange};
use crate::mutators::range::Range;
use std::ops::RangeInclusive;
use vstd::prelude::*;

verus! {

broadcast use crate::error::group_error_facts;

/// The default mutator of `bool` values.
#[derive(Clone, Copy, Debug)]
pub struct Bool {
    _private: (),
}

/// A mutator of `bool` values: it flips the value, and while shrinking it
/// only turns `true` into `false`.
pub fn bool() -> (m: Bool)
    ensures
        m.wf(),
{
    Bool { _private: () }
}

impl Mutate<bool> for Bool {
    open spec fn wf(&self) -> bool {
        true
    }

    open spec fn rejects(&self, value: bool, shrink: bool) -> Option<ErrorKind> {
        None
    }

    open spec fn max_candidates(&self) -> nat {
        1
    }

    open spec fn candidates(&self, value: bool, shrink: bool) -> nat {
        if !shrink || value {
            1
        } else {
            0
        }
    }

    open spec fn applies(
        &self,
        value: bool,
        shrink: bool,
        index: nat,
        after: Self,
        new_value: bool,
        result: Result<(), Error>,
    ) -> bool {
        &&& result is Ok
        &&& new_value == !value
        &&& after == *self
    }

    fn mutate(&mut self, c: &mut Candidates<'_>, value: &mut bool) -> (r: Result<(), Error>) {
        if !c.shrink() || *value {
            let flip = |ctx: &mut Context<'_>, m: &mut Bool, v: &mut bool| -> (res: Result<
                (),
                Error,
            >)
                ensures
                    *final(final(ctx).lent()) == *final(old(ctx).lent()),
                    res is Ok,
                    *final(v) == !*old(v),
                    *final(m) == *old(m),
                {
                    *v = !*v;
                    Ok(())
                };
            c.mutation(self, value, flip)?;
        }
        Ok(())
    }
}

impl Default for Bool {
    fn default() -> (m: Self)
        ensures
            m.wf(),
    {
        bool()
    }
}

impl DefaultMutate for bool {
    type DefaultMutate = Bool;
}

/// A mutation of a `bool` flips it. While shrinking it succeeds exactly for
/// `true`; for `false` it reports exhaustion and leaves the value alone.
pub proof fn lemma_bool_flips(
    mutator: Bool,
    shrink: bool,
    value: bool,
    after: Bool,
    new_value: bool,
    r: Result<(), Error>,
)
    requires
        mutated(mutator, shrink, value, after, new_value, r),
    ensures
        r is Ok <==> !shrink || value,
        r is Ok ==> new_value == !value,
        r is Err ==> r == Err::<(), Error>(Error::of(ErrorKind::Exhausted)) && new_value == value,
{
}

/// The default mutator of `char` values.
#[derive(Clone, Copy, Debug)]
pub struct Char {
    _private: (),
}

/// A mutator of `char` values.
///
/// Outside shrink mode it has one candidate for each of the
/// [blocks](block_start) it knows, which redraws the value from the block,
/// and one that redraws it from all characters, so that a mutation lands on
/// a character in common use far more often than a flat draw would. While
/// shrinking its one candidate redraws the value from the characters below
/// it.
pub fn char() -> (m: Char)
    ensures
        m.wf(),
{
    Char { _private: () }
}

impl Default for Char {
    fn default() -> (m: Self)
        ensures
            m.wf(),
    {
        char()
    }
}

impl DefaultMutate for char {
    type DefaultMutate = Char;
}

/// The number of blocks of characters that [`Char`] draws from.
pub const CHAR_BLOCKS: usize = 7;

/// The first character of the block numbered `index`: the printable ASCII
/// characters, then plane 0, three assigned stretches of plane 1, plane 2,
/// and the assigned stretch of plane 3.
pub open spec fn block_start(index: nat) -> char {
    if index == 0 {
        '\u{20}'
    } else if index == 1 {
        '\u{0}'
    } else if index == 2 {
        '\u{10000}'
    } else if index == 3 {
        '\u{16000}'
    } else if index == 4 {
        '\u{1A000}'
    } else if index == 5 {
        '\u{20000}'
    } else {
        '\u{30000}'
    }
}

/// The last character of the block numbered `index`.
pub open spec fn block_end(index: nat) -> char {
    if index == 0 {
        '\u{7E}'
    } else if index == 1 {
        '\u{FFFF}'
    } else if index == 2 {
        '\u{14FFF}'
    } else if index == 3 {
        '\u{18FFF}'
    } else if index == 4 {
        '\u{1FFFF}'
    } else if index == 5 {
        '\u{2FFFF}'
    } else {
        '\u{32FFF}'
    }
}

impl Char {
    /// Registers the candidate that redraws `value` from the block numbered
    /// `index`.
    fn block(&mut self, c: &mut Candidates<'_>, value: &mut char, index: usize) -> (r: Result<
        (),
        Error,
    >)
        requires
            index < CHAR_BLOCKS,
            !old(c)@.shrink,
            old(c)@.ready(),
            old(c)@.has_room(1),
        ensures
            final(c)@.shrink == old(c)@.shrink,
            *final(final(c).lent()) == *final(old(c).lent()),
            !old(c)@.selects_next() ==> {
                &&& r is Ok
                &&& final(c)@ == old(c)@.advanced(1)
                &&& *final(value) == *old(value)
            },
            old(c)@.selects_next() ==> {
                &&& r == Err::<(), Error>(Error::signal())
                &&& final(c)@.applied
                &&& block_start(index as nat) <= *final(value) <= block_end(index as nat)
            },
    {
        let (start, end) = if index == 0 {
            ('\u{20}', '\u{7E}')
        } else if index == 1 {
            ('\u{0}', '\u{FFFF}')
        } else if index == 2 {
            ('\u{10000}', '\u{14FFF}')
        } else if index == 3 {
            ('\u{16000}', '\u{18FFF}')
        } else if index == 4 {
            ('\u{1A000}', '\u{1FFFF}')
        } else if index == 5 {
            ('\u{20000}', '\u{2FFFF}')
        } else {
            ('\u{30000}', '\u{32FFF}')
        };
        self.redraw_within(c, value, start, end)
    }

    /// Registers the candidate that redraws `value` from `start..=end`,
    /// and while shrinking from the part of it that does not lie above the
    /// value; none where that part is empty.
    fn redraw_within(
        &mut self,
        c: &mut Candidates<'_>,
        value: &mut char,
        start: char,
        end: char,
    ) -> (r: Result<(), Error>)
        requires
            start <= end,
            old(c)@.ready(),
            old(c)@.has_room(1),
        ensures
            final(c)@.shrink == old(c)@.shrink,
            *final(final(c).lent()) == *final(old(c).lent()),
            *final(self) == *old(self),
            old(c)@.shrink && *old(value) <= start ==> {
                &&& r is Ok
                &&& final(c)@ == old(c)@
                &&& *final(value) == *old(value)
            },
            !(old(c)@.shrink && *old(value) <= start) && !old(c)@.selects_next() ==> {
                &&& r is Ok
                &&& final(c)@ == old(c)@.advanced(1)
                &&& *final(value) == *old(value)
            },
            !(old(c)@.shrink && *old(value) <= start) && old(c)@.selects_next() ==> {
                &&& r == Err::<(), Error>(Error::signal())
                &&& final(c)@.applied
                &&& start <= *final(value) <= end
                &&& old(c)@.shrink ==> *final(value) <= *old(value)
            },
    {
        if *value <= start && c.shrink() {
            return Ok(());
        }
        let redraw = |ctx: &mut Context<'_>, m: &mut Char, v: &mut char| -> (res: Result<(), Error>)
            requires
                start <= end,
                ctx.shrink() ==> start < *v,
            ensures
                *final(final(ctx).lent()) == *final(old(ctx).lent()),
                res is Ok,
                *final(m) == *old(m),
                start <= *final(v) <= end,
                old(ctx).shrink() ==> *final(v) <= *old(v),
            {
                let end = if ctx.shrink() && *v < end {
                    *v
                } else {
                    end
                };
                *v = ctx.rng().gen_range_char(start, end);
                Ok(())
            };
        c.mutation(self, value, redraw)
    }
}

impl Mutate<char> for Char {
    open spec fn wf(&self) -> bool {
        true
    }

    open spec fn rejects(&self, value: char, shrink: bool) -> Option<ErrorKind> {
        None
    }

    open spec fn candidates(&self, value: char, shrink: bool) -> nat {
        if shrink {
            if value != '\0' {
                1
            } else {
                0
            }
        } else {
            (CHAR_BLOCKS + 1) as nat
        }
    }

    open spec fn max_candidates(&self) -> nat {
        (CHAR_BLOCKS + 1) as nat
    }

    open spec fn applies(
        &self,
        value: char,
        shrink: bool,
        index: nat,
        after: Self,
        new_value: char,
        result: Result<(), Error>,
    ) -> bool {
        &&& result is Ok
        &&& after == *self
        &&& shrink ==> new_value < value
        &&& !shrink && index < CHAR_BLOCKS ==> block_start(index) <= new_value <= block_end(index)
    }

    fn mutate(&mut self, c: &mut Candidates<'_>, value: &mut char) -> (r: Result<(), Error>) {
        if c.shrink() {
            if *value != '\0' {
                let redraw = |ctx: &mut Context<'_>, m: &mut Char, v: &mut char| -> (res: Result<
                    (),
                    Error,
                >)
                    requires
                        *v != '\0',
                    ensures
                        *final(final(ctx).lent()) == *final(old(ctx).lent()),
                        res is Ok,
                        *final(m) == *old(m),
                        *final(v) < *old(v),
                    {
                        *v = ctx.rng().gen_char_below(*v);
                        Ok(())
                    };
                c.mutation(self, value, redraw)?;
            }
            Ok(())
        } else {
            // One candidate for each block, to bias the distribution towards
            // interesting characters. The blocks still hold unassigned
            // characters: this is a best effort.
            let mut index: usize = 0;
            while index < CHAR_BLOCKS
                invariant
                    index <= CHAR_BLOCKS,
                    !old(c)@.shrink,
                    old(c)@.ready(),
                    old(c)@.has_room((CHAR_BLOCKS + 1) as nat),
                    c@ == old(c)@.advanced(index as nat),
                    *final(c.lent()) == *final(old(c).lent()),
                    old(c)@.distance() >= index || old(c)@.phase is Count,
                    *value == *old(value),
                    *self == *old(self),
                decreases CHAR_BLOCKS - index,
            {
                self.block(c, value, index)?;
                index += 1;
            }

            // Catch all: any valid character, regardless of its plane or
            // block, or of whether it has been assigned.
            let redraw = |ctx: &mut Context<'_>, m: &mut Char, v: &mut char| -> (res: Result<
                (),
                Error,
            >)
                ensures
                    *final(final(ctx).lent()) == *final(old(ctx).lent()),
                    res is Ok,
                    *final(m) == *old(m),
                {
                    *v = ctx.rng().gen_char();
                    Ok(())
                };
            c.mutation(self, value, redraw)?;
            Ok(())
        }
    }
}

impl Generate<char> for Char {
    open spec fn generates(&self, shrink: bool, after: Self, result: Result<char, Error>) -> bool {
        result is Ok && after == *self
    }

    fn generate(&mut self, context: &mut Context<'_>) -> (r: Result<char, Error>) {
        Ok(context.rng().gen_char())
    }
}

impl MutateInRange<char> for Char {
    open spec fn rejects_in_range(
        &self,
        value: char,
        range: RangeInclusive<char>,
        shrink: bool,
    ) -> Option<ErrorKind> {
        if range@.start > range@.end {
            Some(ErrorKind::InvalidRange)
        } else {
            None
        }
    }

    open spec fn candidates_in_range(
        &self,
        value: char,
        range: RangeInclusive<char>,
        shrink: bool,
    ) -> nat {
        if range@.start > range@.end || (shrink && value <= range@.start) {
            0
        } else {
            1
        }
    }

    open spec fn applies_in_range(
        &self,
        value: char,
        range: RangeInclusive<char>,
        shrink: bool,
        index: nat,
        after: Self,
        new_value: char,
        result: Result<(), Error>,
    ) -> bool {
        &&& result is Ok
        &&& after == *self
        &&& range@.start <= new_value <= range@.end
        &&& shrink ==> new_value <= value
    }

    fn mutate_in_range(
        &mut self,
        c: &mut Candidates<'_>,
        value: &mut char,
        range: &RangeInclusive<char>,
    ) -> (r: Result<(), Error>) {
        let start = *range.start();
        let end = *range.end();

        if start > end {
            return Err(Error::invalid_range());
        }
        self.redraw_within(c, value, start, end)
    }
}

/// Outside shrink mode a mutation of a `char` always succeeds.
pub proof fn lemma_char_mutates(
    mutator: Char,
    value: char,
    after: Char,
    new_value: char,
    r: Result<(), Error>,
)
    requires
        mutated(mutator, false, value, after, new_value, r),
    ensures
        r is Ok,
{
}

/// Shrinking a `char` makes progress: the mutation succeeds exactly for a
/// character other than `'\0'`, and then leaves a character strictly below
/// it; for `'\0'` it reports exhaustion and leaves the value alone.
pub proof fn lemma_char_shrinks(
    mutator: Char,
    value: char,
    after: Char,
    new_value: char,
    r: Result<(), Error>,
)
    requires
        mutated(mutator, true, value, after, new_value, r),
    ensures
        r is Ok <==> value != '\0',
        r is Ok ==> new_value < value,
        r is Err ==> r == Err::<(), Error>(Error::of(ErrorKind::Exhausted)) && new_value == value,
{
}

/// The scalar value of a character is a `u32`.
proof fn lemma_scalar_value(c: char)
    ensures
        0 <= c as int <= u32::MAX,
        c as u32 == c as int,
{
}

/// Shrinking a `char` ends: a run of characters, each made from the one
/// before by a successful shrinking mutation, has no more steps than the
/// scalar value of its first character.
pub proof fn lemma_char_shrinking_ends(mutator: Char, values: Seq<char>)
    requires
        values.len() > 0,
        forall|i: int|
            0 <= i < values.len() - 1 ==> steps_to(
                mutator,
                true,
                #[trigger] values[i],
                values[i + 1],
            ),
    ensures
        values.len() - 1 <= values[0] as u32,
    decreases values.len(),
{
    if values.len() > 1 {
        assert(steps_to(mutator, true, values[0], values[1]));
        let after = choose|after: Char| mutated(mutator, true, values[0], after, values[1], Ok(()));
        lemma_char_shrinks(mutator, values[0], after, values[1], Ok(()));
        let rest = values.subrange(1, values.len() as int);
        assert forall|i: int| 0 <= i < rest.len() - 1 implies steps_to(
            mutator,
            true,
            #[trigger] rest[i],
            rest[i + 1],
        ) by {
            assert(steps_to(mutator, true, values[i + 1], values[i + 2]));
        }
        lemma_char_shrinking_ends(mutator, rest);
        assert(rest[0] == values[1]);
        lemma_scalar_value(values[1]);
    }
    lemma_scalar_value(values[0]);
}

/// A `char` held to a range stays in it: a mutation within `start..=end`
/// succeeds unless the session is shrinking a value that is not above
/// `start`, and then leaves a character of the range, which while shrinking
/// is not above the old one. Where it does not succeed it reports
/// exhaustion, and a range whose start lies above its end is reported as
/// invalid; in both cases the value is left alone.
pub proof fn lemma_char_stays_in_range(
    ranged: Range<Char, char>,
    shrink: bool,
    value: char,
    after: Range<Char, char>,
    new_value: char,
    r: Result<(), Error>,
)
    requires
        mutated(ranged, shrink, value, after, new_value, r),
    ensures
        ranged.range@.start > ranged.range@.end ==> {
            &&& r == Err::<(), Error>(Error::of(ErrorKind::InvalidRange))
            &&& new_value == value
        },
        ranged.range@.start <= ranged.range@.end ==> {
            &&& r is Ok <==> !(shrink && value <= ranged.range@.start)
            &&& r is Ok ==> ranged.range@.start <= new_value <= ranged.range@.end
            &&& r is Ok && shrink ==> new_value <= value
            &&& r is Err ==> r == Err::<(), Error>(Error::of(ErrorKind::Exhausted)) && new_value
                == value
        },
{
}

/// The mutator of the unit type.
#[derive(Clone, Copy, Debug)]
pub struct Unit {
    _private: (),
}

/// A mutator of the unit type. The type has one value, so the mutator has
/// no candidate and every mutation with it reports exhaustion.
pub fn unit() -> (m: Unit)
    ensures
        m.wf(),
{
    Unit { _private: () }
}

impl Default for Unit {
    fn default() -> (m: Self)
        ensures
            m.wf(),
    {
        unit()
    }
}

impl Mutate<()> for Unit {
    open spec fn wf(&self) -> bool {
        true
    }

    open spec fn rejects(&self, value: (), shrink: bool) -> Option<ErrorKind> {
        None
    }

    open spec fn candidates(&self, value: (), shrink: bool) -> nat {
        0
    }

    open spec fn max_candidates(&self) -> nat {
        0
    }

    open spec fn applies(
        &self,
        value: (),
        shrink: bool,
        index: nat,
        after: Self,
        new_value: (),
        result: Result<(), Error>,
    ) -> bool {
        false
    }

    fn mutate(&mut self, c: &mut Candidates<'_>, value: &mut ()) -> (r: Result<(), Error>) {
        Ok(())
    }
}

/// The unit type has one value, so its mutator is always exhausted.
pub proof fn lemma_unit_is_exhausted(mutator: Unit, shrink: bool, after: Unit, r: Result<(), Error>)
    requires
        mutated(mutator, shrink, (), after, (), r),
    ensures
        r == Err::<(), Error>(Error::of(ErrorKind::Exhausted)),
{
}

} // verus!
