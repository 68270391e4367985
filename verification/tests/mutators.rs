use mutatis::error::ResultExt;
use mutatis::mutators as m;
use mutatis::{Context, Error, Generate, Mutate, Session};

#[test]
fn range_keeps_the_value_within_bounds() {
    let mut mutator = m::range(111..=666);
    let mut session = Session::new();

    let mut value = 123;
    for _ in 0..100 {
        session.mutate_with(&mut mutator, &mut value).unwrap();
        assert!(value >= 111);
        assert!(value <= 666);
    }
}

#[test]
fn range_brings_any_value_into_bounds() {
    let mut session = Session::new();
    for start in [i8::MIN, -3, 0, 5] {
        for end in [start, start.saturating_add(1), start.saturating_add(40), i8::MAX] {
            for initial in [i8::MIN, -100, -1, 0, 1, 100, i8::MAX] {
                let mut value = initial;
                session.mutate_with(&mut m::range(start..=end), &mut value).unwrap();
                assert!(start <= value && value <= end);
            }
        }
    }
}

#[test]
fn range_of_one_value_gives_that_value() {
    let mut session = Session::new();
    let mut value = 0u64;
    session.mutate_with(&mut m::range(77..=77), &mut value).unwrap();
    assert_eq!(value, 77);

    let mut c = 'a';
    session.mutate_with(&mut m::range('z'..='z'), &mut c).unwrap();
    assert_eq!(c, 'z');
}

#[test]
fn range_does_not_stay_at_a_bound() {
    // A draw that handed one of its bounds back would fail here.
    let mut session = Session::new();
    let mut seen = std::collections::BTreeSet::new();
    let mut value = 0u16;
    for _ in 0..200 {
        session.mutate_with(&mut m::range(10..=19), &mut value).unwrap();
        seen.insert(value);
    }
    assert_eq!(seen.into_iter().collect::<Vec<_>>(), (10..=19).collect::<Vec<_>>());
}

#[test]
fn an_inverted_range_is_invalid_and_leaves_the_value() {
    let mut session = Session::new();
    let mut value = 7u8;
    let err = session.mutate_with(&mut m::range(10..=5), &mut value).err().unwrap();
    assert!(err.is_invalid_range());
    assert_eq!(value, 7);

    let mut session = Session::new().shrink(true);
    let mut c = 'x';
    let err = session.mutate_with(&mut m::range('b'..='a'), &mut c).err().unwrap();
    assert!(err.is_invalid_range());
    assert_eq!(c, 'x');

    let mut wide = -1i128;
    let err = session.mutate_with(&mut m::range_with(1..=0, m::i128()), &mut wide).err().unwrap();
    assert!(err.is_invalid_range());
    assert_eq!(wide, -1);
}

#[test]
fn shrinking_in_a_range_does_not_grow_the_value() {
    let mut session = Session::new().shrink(true);
    let mut mutator = m::range(10u32..=1000);
    let mut value = 500;
    for _ in 0..200 {
        let before = value;
        match session.mutate_with(&mut mutator, &mut value) {
            Ok(()) => {
                assert!(10 <= value && value <= before);
            }
            Err(e) => {
                assert!(e.is_exhausted());
                assert_eq!(before, 10);
                assert_eq!(value, 10);
            }
        }
    }
    assert_eq!(value, 10);
}

#[test]
fn shrinking_in_a_range_clamps_to_the_upper_bound() {
    let mut session = Session::new().shrink(true);
    let mut value = 200u8;
    session.mutate_with(&mut m::range(10..=20), &mut value).unwrap();
    assert!(10 <= value && value <= 20);
}

#[test]
fn shrinking_below_a_range_is_exhausted() {
    let mut session = Session::new().shrink(true);
    for initial in [0u8, 9, 10] {
        let mut value = initial;
        let err = session.mutate_with(&mut m::range(10..=20), &mut value).err().unwrap();
        assert!(err.is_exhausted());
        assert_eq!(value, initial);
    }
}

#[test]
fn range_generates_within_bounds() {
    struct Generated;
    impl Mutate<i32> for Generated {
        fn mutate(&mut self, c: &mut mutatis::Candidates<'_>, value: &mut i32) -> Result<(), Error> {
            c.mutation(self, value, |ctx: &mut Context<'_>, _m: &mut Generated, v: &mut i32| {
                *v = m::range(-5..=5).generate(ctx)?;
                Ok(())
            })
        }
    }
    let mut session = Session::new();
    let mut value = 1000;
    for _ in 0..100 {
        session.mutate_with(&mut Generated, &mut value).unwrap();
        assert!(-5 <= value && value <= 5);
    }
}

#[test]
fn range_with_uses_the_given_mutator() {
    let mut session = Session::new();
    let mut value = 0usize;
    session.mutate_with(&mut m::range_with(3..=4, m::usize()), &mut value).unwrap();
    assert!(value == 3 || value == 4);
}

#[test]
fn the_default_mutator_of_a_type() {
    let mut session = Session::new();
    let mut value = 'a';
    let mut mutator = mutatis::mutators::default::<char>();
    session.mutate_with(&mut mutator, &mut value).unwrap();

    let mut nested = [Ok::<u8, char>(1), Err('x')];
    let mut mutator = mutatis::mutators::default::<[Result<u8, char>; 2]>();
    session.mutate_with(&mut mutator, &mut nested).unwrap();

    let mut optional = (Some(3i64), false);
    let mut mutator = mutatis::mutators::default::<(Option<i64>, bool)>();
    session.mutate_with(&mut mutator, &mut optional).unwrap();
}

#[test]
fn every_integer_type_is_redrawn() {
    let mut session = Session::new();
    let mut a = 0u8;
    let mut b = 0u16;
    let mut c = 0u32;
    let mut d = 0u64;
    let mut e = 0u128;
    let mut f = 0usize;
    let mut g = 0i8;
    let mut h = 0i16;
    let mut i = 0i32;
    let mut j = 0i64;
    let mut k = 0i128;
    let mut l = 0isize;
    let mut changed = [false; 12];
    for _ in 0..20 {
        session.mutate_with(&mut m::u8(), &mut a).unwrap();
        session.mutate_with(&mut m::u16(), &mut b).unwrap();
        session.mutate_with(&mut m::u32(), &mut c).unwrap();
        session.mutate_with(&mut m::u64(), &mut d).unwrap();
        session.mutate_with(&mut m::u128(), &mut e).unwrap();
        session.mutate_with(&mut m::usize(), &mut f).unwrap();
        session.mutate_with(&mut m::i8(), &mut g).unwrap();
        session.mutate_with(&mut m::i16(), &mut h).unwrap();
        session.mutate_with(&mut m::i32(), &mut i).unwrap();
        session.mutate_with(&mut m::i64(), &mut j).unwrap();
        session.mutate_with(&mut m::i128(), &mut k).unwrap();
        session.mutate_with(&mut m::isize(), &mut l).unwrap();
        changed[0] |= a != 0;
        changed[1] |= b != 0;
        changed[2] |= c != 0;
        changed[3] |= d != 0;
        changed[4] |= e != 0;
        changed[5] |= f != 0;
        changed[6] |= g != 0;
        changed[7] |= h != 0;
        changed[8] |= i != 0;
        changed[9] |= j != 0;
        changed[10] |= k != 0;
        changed[11] |= l != 0;
    }
    assert_eq!(changed, [true; 12]);
}

#[test]
fn every_integer_type_shrinks_to_zero() {
    let mut session = Session::new().shrink(true);
    let mut a = u8::MAX;
    let mut b = i64::MIN;
    let mut c = usize::MAX;
    let mut d = i128::MAX;
    while session.mutate(&mut a).is_ok() {}
    while session.mutate(&mut b).is_ok() {}
    while session.mutate(&mut c).is_ok() {}
    while session.mutate(&mut d).is_ok() {}
    assert_eq!((a, b, c, d), (0, 0, 0, 0));
    assert!(session.mutate(&mut a).err().unwrap().is_exhausted());
    assert!(session.mutate(&mut b).err().unwrap().is_exhausted());
}

#[test]
fn a_char_is_drawn_from_the_blocks() {
    let mut session = Session::new();
    let mut mutator = m::char();
    let mut value = 'a';
    let mut ascii = 0;
    let mut plane_0 = 0;
    let mut higher = 0;
    for _ in 0..800 {
        session.mutate_with(&mut mutator, &mut value).unwrap();
        let code = value as u32;
        if (0x20..=0x7E).contains(&code) {
            ascii += 1;
        } else if code <= 0xFFFF {
            plane_0 += 1;
        } else {
            higher += 1;
        }
    }
    // One candidate in eight draws from the printable ASCII characters alone,
    // which a flat draw over all characters would hit almost never.
    assert!(ascii > 50);
    assert!(plane_0 > 50);
    assert!(higher > 300);
}

#[test]
fn a_char_shrinks_to_nul() {
    let mut session = Session::new().shrink(true);
    let mut value = '\u{10FFFF}';
    loop {
        let before = value;
        match session.mutate(&mut value) {
            Ok(()) => assert!(value < before),
            Err(e) => {
                assert!(e.is_exhausted());
                break;
            }
        }
    }
    assert_eq!(value, '\0');
}

#[test]
fn a_char_in_a_range_is_no_surrogate() {
    let mut session = Session::new();
    let mut value = 'a';
    for _ in 0..200 {
        session.mutate_with(&mut m::range('\u{D700}'..='\u{E100}'), &mut value).unwrap();
        assert!('\u{D700}' <= value && value <= '\u{E100}');
    }
}

#[test]
fn option_of_none_becomes_some() {
    let mut session = Session::new();
    let mut value = None;
    session.mutate_with(&mut m::option(m::just(5u8)), &mut value).unwrap();
    assert_eq!(value, Some(5));
}

#[test]
fn option_of_some_is_mutated_or_cleared() {
    let mut session = Session::new();
    let mut mutator = m::option(m::just(5u8));
    let mut cleared = 0;
    let mut kept = 0;
    for _ in 0..200 {
        let mut value = Some(1);
        session.mutate_with(&mut mutator, &mut value).unwrap();
        match value {
            None => cleared += 1,
            Some(inner) => {
                assert_eq!(inner, 5);
                kept += 1;
            }
        }
    }
    assert!(cleared > 50 && kept > 50);
}

#[test]
fn option_shrinks_to_none() {
    let mut session = Session::new().shrink(true);
    let mut mutator = m::option(m::u32());
    let mut value = Some(36);
    while session.mutate_with(&mut mutator, &mut value).is_ok() {}
    assert_eq!(value, None);
    assert!(session.mutate_with(&mut mutator, &mut value).err().unwrap().is_exhausted());
}

#[test]
fn some_always_produces_some() {
    let mut mutator = m::some(m::u32());
    let mut session = Session::new();

    let mut value = None;
    for _ in 0..10 {
        session.mutate_with(&mut mutator, &mut value).unwrap();
        assert!(value.is_some());
    }

    let mut session = Session::new().shrink(true);
    let mut value: Option<u32> = None;
    assert!(session.mutate_with(&mut mutator, &mut value).err().unwrap().is_exhausted());
    assert_eq!(value, None);
}

#[test]
fn none_always_produces_none() {
    let mut mutator = m::none();
    let mut session = Session::new();

    let mut value = Some(36);
    session.mutate_with(&mut mutator, &mut value).unwrap();
    assert!(value.is_none());

    let err = session.mutate_with(&mut mutator, &mut value).err().unwrap();
    assert!(err.is_exhausted());
    assert!(value.is_none());
}

#[test]
fn result_switches_between_its_cases() {
    let mut mutator = m::result(m::range(-10..=10), m::just(true));
    let mut session = Session::new().seed(0x1984);

    let mut res = Ok(1234i32);
    let mut oks = 0;
    let mut errs = 0;
    for _ in 0..200 {
        session.mutate_with(&mut mutator, &mut res).unwrap();
        match res {
            Ok(x) => {
                assert!(-10 <= x && x <= 10);
                oks += 1;
            }
            Err(flag) => {
                assert!(flag);
                errs += 1;
            }
        }
    }
    assert!(oks > 20 && errs > 20);
}

#[test]
fn a_shrinking_result_does_not_become_an_error() {
    let mut mutator = m::result(m::u8(), m::u8());
    let mut session = Session::new().shrink(true);
    let mut res: Result<u8, u8> = Ok(200);
    loop {
        match session.mutate_with(&mut mutator, &mut res) {
            Ok(()) => assert!(res.is_ok()),
            Err(e) => {
                assert!(e.is_exhausted());
                break;
            }
        }
    }
    assert_eq!(res, Ok(0));

    // An error can always become a success.
    let mut res: Result<u8, u8> = Err(0);
    session.mutate_with(&mut mutator, &mut res).unwrap();
    assert!(res.is_ok());
}

#[test]
fn an_array_is_edited_one_element_at_a_time() {
    let mut mutator = m::array(m::bool());
    let mut session = Session::new();
    let mut hit = [false; 4];
    for _ in 0..200 {
        let mut value = [false; 4];
        session.mutate_with(&mut mutator, &mut value).unwrap();
        assert_eq!(value.iter().filter(|flipped| **flipped).count(), 1);
        let index = value.iter().position(|flipped| *flipped).unwrap();
        hit[index] = true;
    }
    assert_eq!(hit, [true; 4]);
}

#[test]
fn an_empty_array_is_exhausted() {
    let mut session = Session::new();
    let mut value: [u8; 0] = [];
    let err = session.mutate_with(&mut m::array(m::u8()), &mut value).err().unwrap();
    assert!(err.is_exhausted());
}

#[test]
fn an_array_shrinks_element_by_element() {
    let mut session = Session::new().shrink(true);
    let mut value = [true, false, true];
    let mut mutator = m::array(m::bool());
    session.mutate_with(&mut mutator, &mut value).unwrap();
    assert_eq!(value.iter().filter(|set| **set).count(), 1);
    session.mutate_with(&mut mutator, &mut value).unwrap();
    assert_eq!(value, [false; 3]);
    assert!(session.mutate_with(&mut mutator, &mut value).err().unwrap().is_exhausted());
}

#[test]
fn an_array_hands_on_the_error_of_an_element() {
    let mut session = Session::new();
    let mut value = [1u8, 2, 3];
    let err = session
        .mutate_with(&mut m::array(m::range(9..=1)), &mut value)
        .err()
        .unwrap();
    assert!(err.is_invalid_range());
    assert_eq!(value, [1, 2, 3]);
}

#[test]
fn a_tuple_is_edited_one_field_at_a_time() {
    let mut mutator = m::tuple3(m::bool(), m::just(7u8), m::range(1i16..=1));
    let mut session = Session::new();
    let mut hit = [false; 3];
    for _ in 0..200 {
        let mut value = (false, 0u8, 0i16);
        session.mutate_with(&mut mutator, &mut value).unwrap();
        match value {
            (true, 0, 0) => hit[0] = true,
            (false, 7, 0) => hit[1] = true,
            (false, 0, 1) => hit[2] = true,
            other => panic!("more than one field was edited: {:?}", other),
        }
    }
    assert_eq!(hit, [true; 3]);
}

#[test]
fn a_wide_tuple_reaches_its_last_field() {
    let mut mutator = m::tuple16(
        m::bool(),
        m::bool(),
        m::bool(),
        m::bool(),
        m::bool(),
        m::bool(),
        m::bool(),
        m::bool(),
        m::bool(),
        m::bool(),
        m::bool(),
        m::bool(),
        m::bool(),
        m::bool(),
        m::bool(),
        m::just(9u8),
    );
    let mut session = Session::new();
    let mut last = false;
    let mut first = false;
    for _ in 0..400 {
        let mut value = (
            false, false, false, false, false, false, false, false, false, false, false, false,
            false, false, false, 0u8,
        );
        session.mutate_with(&mut mutator, &mut value).unwrap();
        first |= value.0;
        last |= value.15 == 9;
    }
    assert!(first && last);
}

#[test]
fn a_tuple_of_exhausted_fields_is_exhausted() {
    let mut session = Session::new().shrink(true);
    let mut value = (false, 0u8);
    let err = session.mutate(&mut value).err().unwrap();
    assert!(err.is_exhausted());
    assert_eq!(value, (false, 0));
    let mut value = (true, 0u8);
    session.mutate(&mut value).unwrap();
    assert_eq!(value, (false, 0));
}

#[test]
fn or_chooses_among_the_candidates_of_both() {
    let mut session = Session::new();
    let mut mutator = m::just(-1).or(m::range(0x40..=0x4f));
    let mut left = 0;
    let mut right = 0;
    let mut value = 0;
    for _ in 0..200 {
        session.mutate_with(&mut mutator, &mut value).unwrap();
        if value == -1 {
            left += 1;
        } else {
            assert!((0x40..=0x4f).contains(&value));
            right += 1;
        }
    }
    // Each side has one candidate, so each is chosen about half the time.
    assert!(left > 60 && right > 60);
}

#[test]
fn or_with_an_exhausted_side_uses_the_other() {
    let mut session = Session::new();
    let mut value = Some(3u8);
    let mut mutator = Mutate::<Option<u8>>::or(m::none(), m::some(m::just(8)));
    let mut cleared = false;
    let mut set = false;
    for _ in 0..50 {
        value = Some(3);
        session.mutate_with(&mut mutator, &mut value).unwrap();
        cleared |= value.is_none();
        set |= value == Some(8);
    }
    assert!(cleared && set);

    // For an absent value only the right side has a candidate.
    value = None;
    session.mutate_with(&mut mutator, &mut value).unwrap();
    assert_eq!(value, Some(8));
}

#[test]
fn or_of_two_exhausted_mutators_is_exhausted() {
    let mut session = Session::new();
    let mut value: Option<u8> = None;
    let mut mutator = Mutate::<Option<u8>>::or(m::none(), m::none());
    let err = session.mutate_with(&mut mutator, &mut value).err().unwrap();
    assert!(err.is_exhausted());
    assert!(session.mutate_with(&mut mutator, &mut value).ignore_exhausted().is_ok());
}

#[test]
fn map_rides_along_with_the_edit() {
    // Values with a single bit set.
    let mut mutator = m::range(0u32..=31).map(|_ctx: &mut Context<'_>, x: &u32| Ok(1 << *x));
    let mut session = Session::new();
    let mut value = 0;
    for _ in 0..100 {
        session.mutate_with(&mut mutator, &mut value).unwrap();
        assert_eq!(value.count_ones(), 1);
        value = value.trailing_zeros();
    }
}

#[test]
fn map_is_no_candidate_of_its_own() {
    let mut calls = std::cell::Cell::new(0);
    {
        let mut mutator = m::none().map(|_ctx: &mut Context<'_>, x: &Option<u8>| {
            calls.set(calls.get() + 1);
            Ok(*x)
        });
        let mut session = Session::new();
        let mut value = None;
        // The inner mutator is exhausted, and the function has nothing to ride on.
        assert!(session.mutate_with(&mut mutator, &mut value).err().unwrap().is_exhausted());
        value = Some(1);
        session.mutate_with(&mut mutator, &mut value).unwrap();
        assert_eq!(value, None);
    }
    assert_eq!(*calls.get_mut(), 1);
}

#[test]
fn map_hands_on_the_error_of_its_function() {
    let mut mutator =
        m::bool().map(|_ctx: &mut Context<'_>, _x: &bool| Err(Error::other("not this one")));
    let mut session = Session::new();
    let mut value = false;
    let err = session.mutate_with(&mut mutator, &mut value).err().unwrap();
    assert!(err.is_other());
    // The edit had run when the function failed.
    assert_eq!(value, true);
}

#[test]
fn map_may_draw_from_the_generator() {
    let mut mutator = m::i32().map(|context: &mut Context<'_>, value: &i32| {
        // Ensure that the value is always positive.
        if *value <= 0 {
            Ok(i32::from(context.rng().gen_u16()) + 1)
        } else {
            Ok(*value)
        }
    });
    let mut session = Session::new();
    let mut value = -42;
    for _ in 0..10 {
        session.mutate_with(&mut mutator, &mut value).unwrap();
        assert!(value > 0, "the mutated value is always positive");
    }
}

#[test]
fn just_generates_its_value() {
    struct Generated;
    impl Mutate<String> for Generated {
        fn mutate(&mut self, c: &mut mutatis::Candidates<'_>, value: &mut String) -> Result<(), Error> {
            c.mutation(self, value, |ctx: &mut Context<'_>, _m: &mut Generated, v: &mut String| {
                *v = m::just(String::from("fixed")).generate(ctx)?;
                Ok(())
            })
        }
    }
    let mut value = String::new();
    Session::new().mutate_with(&mut Generated, &mut value).unwrap();
    assert_eq!(value, "fixed");
}

#[derive(Debug, PartialEq)]
struct NewType(u32);

#[test]
fn proj_mutates_a_part() {
    let mut value = NewType(0);
    let mut mutator = m::range(10u32..=20).proj(|x: &NewType| x.0, |_x: &NewType, part| NewType(part));
    let mut session = Session::new();
    for _ in 0..20 {
        session.mutate_with(&mut mutator, &mut value).unwrap();
        assert!(10 <= value.0 && value.0 <= 20);
    }
}

#[test]
fn proj_leaves_the_rest_alone() {
    let mut mutator = m::bool().proj(
        |pair: &(u8, bool, char)| pair.1,
        |pair: &(u8, bool, char), part| (pair.0, part, pair.2),
    );
    let mut session = Session::new();
    let mut value = (7, false, 'x');
    session.mutate_with(&mut mutator, &mut value).unwrap();
    assert_eq!(value, (7, true, 'x'));

    let mut session = Session::new().shrink(true);
    session.mutate_with(&mut mutator, &mut value).unwrap();
    assert_eq!(value, (7, false, 'x'));
    let err = session.mutate_with(&mut mutator, &mut value).err().unwrap();
    assert!(err.is_exhausted());
    assert_eq!(value, (7, false, 'x'));
}

#[test]
fn proj_hands_on_the_error_of_its_mutator() {
    let mut mutator = m::range(9u8..=1).proj(|x: &(u8,)| x.0, |_x: &(u8,), part| (part,));
    let mut value = (5,);
    let err = Session::new().mutate_with(&mut mutator, &mut value).err().unwrap();
    assert!(err.is_invalid_range());
    assert_eq!(value, (5,));
}
