use mutatis::error::ResultExt;
use mutatis::mutators as m;
use mutatis::{Candidates, Context, Error, Mutate, Session};

#[test]
fn a_bool_is_flipped() {
    let mut session = Session::new();
    let mut value = true;
    session.mutate_with(&mut m::bool(), &mut value).unwrap();
    assert_eq!(value, false);
    session.mutate_with(&mut m::bool(), &mut value).unwrap();
    assert_eq!(value, true);
}

#[test]
fn mutate_uses_the_default_mutator() {
    let mut session = Session::new();
    let mut value = false;
    session.mutate(&mut value).unwrap();
    assert_eq!(value, true);

    let mut single = (true,);
    session.mutate(&mut single).unwrap();
    assert_eq!(single, (false,));
}

#[test]
fn the_default_session_does_not_shrink() {
    // Shrinking never turns `false` into `true`.
    let mut value = false;
    Session::default().mutate(&mut value).unwrap();
    assert_eq!(value, true);
}

#[test]
fn the_unit_mutator_is_exhausted() {
    let mut session = Session::new();
    let mut value = ();
    let err = session.mutate_with(&mut m::unit(), &mut value).err().unwrap();
    assert!(err.is_exhausted());

    let mut session = Session::new().shrink(true);
    let err = session.mutate_with(&mut m::unit(), &mut value).err().unwrap();
    assert!(err.is_exhausted());
    assert!(session.mutate_with(&mut m::unit(), &mut value).ignore_exhausted().is_ok());
}

#[test]
fn a_shrunk_bool_is_false_and_stays_so() {
    let mut session = Session::new().shrink(true);
    let mut value = true;
    session.mutate(&mut value).unwrap();
    assert_eq!(value, false);
    let err = session.mutate(&mut value).err().unwrap();
    assert!(err.is_exhausted());
    assert_eq!(value, false);
}

#[test]
fn the_same_seed_gives_the_same_mutations() {
    let mut first = Session::new().seed(0x12345678);
    let mut second = Session::new().seed(0x12345678);
    let mut x = 93i32;
    let mut y = 93i32;
    for _ in 0..20 {
        first.mutate(&mut x).unwrap();
        second.mutate(&mut y).unwrap();
        assert_eq!(x, y);
    }
}

#[test]
fn another_seed_gives_other_mutations() {
    let mut first = Session::new().seed(1);
    let mut second = Session::new().seed(2);
    let mut xs = Vec::new();
    let mut ys = Vec::new();
    let mut x = 0u64;
    let mut y = 0u64;
    for _ in 0..8 {
        first.mutate(&mut x).unwrap();
        second.mutate(&mut y).unwrap();
        xs.push(x);
        ys.push(y);
    }
    assert_ne!(xs, ys);
}

#[test]
fn seed_keeps_the_mode_and_shrink_sets_it() {
    let mut session = Session::new().shrink(true).seed(7);
    let mut value = false;
    assert!(session.mutate(&mut value).err().unwrap().is_exhausted());

    let mut session = Session::new().shrink(true).shrink(false);
    session.mutate(&mut value).unwrap();
    assert_eq!(value, true);
}

#[test]
fn shrinking_an_integer_reaches_zero_and_is_then_exhausted() {
    let mut session = Session::new().shrink(true);
    let mut value = 42u32;
    let mut steps = 0;
    loop {
        let before = value;
        match session.mutate(&mut value) {
            Ok(()) => {
                assert!(value < before);
                steps += 1;
            }
            Err(e) => {
                assert!(e.is_exhausted());
                assert_eq!(value, before);
                break;
            }
        }
    }
    assert_eq!(value, 0);
    assert!(steps <= 42);
}

#[test]
fn shrinking_a_negative_integer_moves_towards_zero() {
    let mut session = Session::new().shrink(true);
    let mut value = -100i16;
    loop {
        let before = value;
        match session.mutate(&mut value) {
            Ok(()) => {
                assert!(before < value);
                assert!(value <= 0);
            }
            Err(e) => {
                assert!(e.is_exhausted());
                break;
            }
        }
    }
    assert_eq!(value, 0);
}

#[test]
fn shrinking_the_least_integer_does_not_overflow() {
    for _ in 0..50 {
        let mut session = Session::new().shrink(true);
        let mut value = i8::MIN;
        session.mutate(&mut value).unwrap();
        assert!(value > i8::MIN);
        assert!(value <= 0);

        let mut value = i8::MAX;
        session.mutate(&mut value).unwrap();
        assert!(value < i8::MAX);
        assert!(value >= 0);
    }
}

/// A mutator that counts how often it is asked to enumerate, and how often
/// its one edit runs.
struct Counting {
    enumerations: u32,
    edits: u32,
}

impl Mutate<u8> for Counting {
    fn mutate(&mut self, c: &mut Candidates<'_>, value: &mut u8) -> Result<(), Error> {
        // Counting here, outside an edit, breaks the rule that a mutator
        // changes only inside an edit; a test may observe the passes so.
        self.enumerations += 1;
        c.mutation(self, value, |_ctx: &mut Context<'_>, m: &mut Counting, v: &mut u8| {
            m.edits += 1;
            *v = v.wrapping_add(1);
            Ok(())
        })
    }
}

#[test]
fn one_mutation_is_two_passes_and_one_edit() {
    let mut session = Session::new();
    let mut mutator = Counting { enumerations: 0, edits: 0 };
    let mut value = 10;
    session.mutate_with(&mut mutator, &mut value).unwrap();
    assert_eq!(value, 11);
    assert_eq!(mutator.enumerations, 2);
    assert_eq!(mutator.edits, 1);

    for _ in 0..9 {
        session.mutate_with(&mut mutator, &mut value).unwrap();
    }
    assert_eq!(value, 20);
    assert_eq!(mutator.enumerations, 20);
    assert_eq!(mutator.edits, 10);
}

/// A mutator with `n` candidates; the candidate numbered `k` sets the value
/// to `k`.
struct Numbered(u32);

impl Mutate<u32> for Numbered {
    fn mutate(&mut self, c: &mut Candidates<'_>, value: &mut u32) -> Result<(), Error> {
        for k in 0..self.0 {
            c.mutation(self, value, |_ctx: &mut Context<'_>, _m: &mut Numbered, v: &mut u32| {
                *v = k;
                Ok(())
            })?;
        }
        Ok(())
    }
}

#[test]
fn every_candidate_is_chosen_sometimes_and_no_other() {
    let mut session = Session::new();
    let mut mutator = Numbered(4);
    let mut seen = [0u32; 4];
    for _ in 0..400 {
        let mut value = 99;
        session.mutate_with(&mut mutator, &mut value).unwrap();
        assert!(value < 4);
        seen[value as usize] += 1;
    }
    // The draw is uniform: each of the four is chosen about a hundred times.
    for count in seen {
        assert!(count > 50);
    }
}

#[test]
fn a_mutator_without_candidates_leaves_the_value_alone() {
    let mut session = Session::new();
    let mut value = 5;
    let err = session.mutate_with(&mut Numbered(0), &mut value).err().unwrap();
    assert!(err.is_exhausted());
    assert_eq!(value, 5);
}

/// A mutator whose one edit fails.
struct Failing;

impl Mutate<u8> for Failing {
    fn mutate(&mut self, c: &mut Candidates<'_>, value: &mut u8) -> Result<(), Error> {
        c.mutation(self, value, |_ctx: &mut Context<'_>, _m: &mut Failing, _v: &mut u8| {
            Err(Error::other("the edit failed"))
        })
    }
}

#[test]
fn the_error_of_an_edit_is_the_error_of_the_mutation() {
    let mut session = Session::new();
    let mut value = 5;
    let err = session.mutate_with(&mut Failing, &mut value).err().unwrap();
    assert!(err.is_other());
    assert_eq!(err.to_string(), "an unknown error occurred: the edit failed");
    assert_eq!(value, 5);
}

#[test]
fn the_registry_tells_the_mode() {
    struct Mode(Vec<bool>);
    impl Mutate<u8> for Mode {
        fn mutate(&mut self, c: &mut Candidates<'_>, _value: &mut u8) -> Result<(), Error> {
            self.0.push(c.shrink());
            Ok(())
        }
    }
    let mut value = 0;
    let mut mode = Mode(Vec::new());
    let _ = Session::new().mutate_with(&mut mode, &mut value);
    let _ = Session::new().shrink(true).mutate_with(&mut mode, &mut value);
    assert_eq!(mode.0, vec![false, true]);
}

#[test]
fn the_context_of_an_edit_tells_the_mode_and_draws() {
    struct Draw;
    impl Mutate<(bool, u64)> for Draw {
        fn mutate(&mut self, c: &mut Candidates<'_>, value: &mut (bool, u64)) -> Result<(), Error> {
            c.mutation(self, value, |ctx: &mut Context<'_>, _m: &mut Draw, v: &mut (bool, u64)| {
                *v = (ctx.shrink(), ctx.rng().gen_u64());
                Ok(())
            })
        }
    }
    let mut value = (true, 0);
    Session::new().mutate_with(&mut Draw, &mut value).unwrap();
    assert_eq!(value.0, false);
    let first = value.1;
    Session::new().shrink(true).mutate_with(&mut Draw, &mut value).unwrap();
    assert_eq!(value.0, true);
    // Two sessions with the default seed draw the same.
    assert_eq!(value.1, first);
}

/// A mutator with as many candidates as its value has ones, which keeps the
/// number of registrations it made in each pass.
struct Recording {
    passes: Vec<u32>,
}

impl Mutate<u8> for Recording {
    fn mutate(&mut self, c: &mut Candidates<'_>, value: &mut u8) -> Result<(), Error> {
        self.passes.push(0);
        for bit in 0..8 {
            if *value & (1 << bit) != 0 && !(c.shrink() && bit == 7) {
                *self.passes.last_mut().unwrap() += 1;
                c.mutation(self, value, |_ctx: &mut Context<'_>, _m: &mut Recording, v: &mut u8| {
                    *v &= !(1 << bit);
                    Ok(())
                })?;
            }
        }
        Ok(())
    }
}

#[test]
fn counting_twice_counts_the_same() {
    for shrink in [false, true] {
        for value in [0u8, 1, 0b1010_0101, 0xFF] {
            let mut counts = Vec::new();
            for seed in 0..10 {
                let mut session = Session::new().seed(seed).shrink(shrink);
                let mut mutator = Recording { passes: Vec::new() };
                let mut mutated = value;
                let result = session.mutate_with(&mut mutator, &mut mutated);
                // The first pass is the counting pass.
                counts.push(mutator.passes[0]);
                let expected = value.count_ones() - u32::from(shrink && value >= 0x80);
                assert_eq!(mutator.passes[0], expected);
                if expected == 0 {
                    assert!(result.err().unwrap().is_exhausted());
                    assert_eq!(mutator.passes.len(), 1);
                    assert_eq!(mutated, value);
                } else {
                    assert!(result.is_ok());
                    // The selection pass stops at the candidate it applies.
                    assert_eq!(mutator.passes.len(), 2);
                    assert!(1 <= mutator.passes[1] && mutator.passes[1] <= expected);
                    assert_eq!(mutated.count_ones() + 1, value.count_ones());
                }
            }
            assert!(counts.iter().all(|count| *count == counts[0]));
        }
    }
}

#[test]
fn exhaustion_and_rejection_draw_nothing() {
    let mut used = Session::new().seed(42);
    let mut fresh = Session::new().seed(42);

    // The unit mutator is exhausted, and an inverted range is rejected.
    assert!(used.mutate_with(&mut m::unit(), &mut ()).err().unwrap().is_exhausted());
    let mut kept = 7u8;
    assert!(used.mutate_with(&mut m::range(9u8..=1), &mut kept).err().unwrap().is_invalid_range());
    let mut shrunk = 0u32;
    let mut shrinking = Session::new().seed(42).shrink(true);
    assert!(shrinking.mutate(&mut shrunk).err().unwrap().is_exhausted());

    let mut a = 0u64;
    let mut b = 0u64;
    let mut c = 0u64;
    for _ in 0..8 {
        used.mutate(&mut a).unwrap();
        fresh.mutate(&mut b).unwrap();
        assert_eq!(a, b);
    }
    // The shrinking session has drawn nothing either.
    let mut from_shrinking = shrinking.shrink(false);
    let mut again = Session::new().seed(42);
    from_shrinking.mutate(&mut c).unwrap();
    again.mutate(&mut a).unwrap();
    assert_eq!(a, c);
}
