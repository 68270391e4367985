use mutatis::mutators as m;
use mutatis::{Candidates, Context, Error, Generate, Mutate, Session};

#[test]
fn multiples_of_four() {
    // Redraw, then clear the bottom two bits.
    let mut mutator = m::u32().map(|_ctx: &mut Context<'_>, x: &u32| Ok(*x & !3));
    let mut session = Session::new().seed(0x5eed);
    let mut x: u32 = 1234;
    let mut seen = std::collections::BTreeSet::new();
    for _ in 0..100 {
        session.mutate_with(&mut mutator, &mut x).unwrap();
        assert_eq!(x % 4, 0);
        seen.insert(x);
    }
    assert!(seen.len() > 90);
}

#[test]
fn a_constant_is_always_the_same() {
    let mut mutator = m::just(42u8);
    let mut session = Session::new();
    let mut value = 0;
    for _ in 0..50 {
        session.mutate_with(&mut mutator, &mut value).unwrap();
        assert_eq!(value, 42);
    }
    // It does not track having fired, so shrinking goes on as well.
    let mut session = Session::new().shrink(true);
    session.mutate_with(&mut mutator, &mut value).unwrap();
    assert_eq!(value, 42);
}

/// A constant that fires once, and is exhausted from then on.
struct Once {
    value: u8,
    fired: bool,
}

impl Mutate<u8> for Once {
    fn mutate(&mut self, c: &mut Candidates<'_>, value: &mut u8) -> Result<(), Error> {
        if !self.fired {
            c.mutation(self, value, |_ctx: &mut Context<'_>, m: &mut Once, v: &mut u8| {
                *v = m.value;
                m.fired = true;
                Ok(())
            })?;
        }
        Ok(())
    }
}

#[test]
fn a_constant_that_tracks_having_fired_is_exhausted_after_it() {
    let mut mutator = Once { value: 9, fired: false };
    let mut session = Session::new();
    let mut value = 0;
    session.mutate_with(&mut mutator, &mut value).unwrap();
    assert_eq!(value, 9);
    assert!(mutator.fired);
    value = 1;
    for _ in 0..5 {
        let err = session.mutate_with(&mut mutator, &mut value).err().unwrap();
        assert!(err.is_exhausted());
        assert_eq!(value, 1);
    }
}

/// Pairs whose first element is not above the second.
struct OrderedPairs;

impl Mutate<(u64, u64)> for OrderedPairs {
    fn mutate(&mut self, c: &mut Candidates<'_>, pair: &mut (u64, u64)) -> Result<(), Error> {
        if *pair != (0, 0) {
            c.mutation(self, pair, |ctx: &mut Context<'_>, _m: &mut OrderedPairs, pair: &mut (u64, u64)| {
                let a = m::range(0..=pair.0).generate(ctx)?;
                let b = m::range(0..=pair.1).generate(ctx)?;
                *pair = (a.min(b), a.max(b));
                Ok(())
            })?;
        }
        if !c.shrink() {
            c.mutation(self, pair, |ctx: &mut Context<'_>, _m: &mut OrderedPairs, pair: &mut (u64, u64)| {
                let a = m::u64().generate(ctx)?;
                let b = m::u64().generate(ctx)?;
                *pair = (a.min(b), a.max(b));
                Ok(())
            })?;
        }
        Ok(())
    }
}

#[test]
fn a_hand_written_mutator_keeps_its_invariant() {
    let mut pair = (1000, 2000);
    let mut session = Session::new();
    for _ in 0..100 {
        session.mutate_with(&mut OrderedPairs, &mut pair).unwrap();
        assert!(pair.0 <= pair.1);
    }

    let mut session = Session::new().shrink(true);
    let mut pair = (0, 0);
    assert!(session.mutate_with(&mut OrderedPairs, &mut pair).err().unwrap().is_exhausted());
}
