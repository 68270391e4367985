use mutatis::mutators as m;
use mutatis::{Mutate, Session};
use std::collections::BTreeSet;
use std::fmt::Debug;

/// Mutates `first` again and again with `mutator` and collects what comes
/// of it.
fn outcomes<T, M>(session: &mut Session, mut mutator: M, first: T) -> Vec<T>
where
    T: Copy + Ord + Debug,
    M: Mutate<T>,
{
    let mut seen = BTreeSet::new();
    for _ in 0..300 {
        let mut value = first;
        session.mutate_with(&mut mutator, &mut value).unwrap();
        seen.insert(value);
    }
    seen.into_iter().collect()
}

#[test]
fn a_ranged_draw_reaches_every_value_of_the_range() {
    let mut s = Session::new();
    assert_eq!(outcomes(&mut s, m::range(3u8..=6), 0), vec![3, 4, 5, 6]);
    assert_eq!(outcomes(&mut s, m::range(3u16..=6), 0), vec![3, 4, 5, 6]);
    assert_eq!(outcomes(&mut s, m::range(3u32..=6), 0), vec![3, 4, 5, 6]);
    assert_eq!(outcomes(&mut s, m::range(3u64..=6), 0), vec![3, 4, 5, 6]);
    assert_eq!(outcomes(&mut s, m::range(3u128..=6), 0), vec![3, 4, 5, 6]);
    assert_eq!(outcomes(&mut s, m::range(3usize..=6), 0), vec![3, 4, 5, 6]);
    assert_eq!(outcomes(&mut s, m::range(-2i8..=1), 0), vec![-2, -1, 0, 1]);
    assert_eq!(outcomes(&mut s, m::range(-2i16..=1), 0), vec![-2, -1, 0, 1]);
    assert_eq!(outcomes(&mut s, m::range(-2i32..=1), 0), vec![-2, -1, 0, 1]);
    assert_eq!(outcomes(&mut s, m::range(-2i64..=1), 0), vec![-2, -1, 0, 1]);
    assert_eq!(outcomes(&mut s, m::range(-2i128..=1), 0), vec![-2, -1, 0, 1]);
    assert_eq!(outcomes(&mut s, m::range(-2isize..=1), 0), vec![-2, -1, 0, 1]);
    assert_eq!(outcomes(&mut s, m::range('a'..='d'), 'z'), vec!['a', 'b', 'c', 'd']);
}

#[test]
fn a_shrinking_draw_reaches_every_value_below() {
    let mut s = Session::new().shrink(true);
    assert_eq!(outcomes(&mut s, m::u8(), 4), vec![0, 1, 2, 3]);
    assert_eq!(outcomes(&mut s, m::u16(), 4), vec![0, 1, 2, 3]);
    assert_eq!(outcomes(&mut s, m::u32(), 4), vec![0, 1, 2, 3]);
    assert_eq!(outcomes(&mut s, m::u64(), 4), vec![0, 1, 2, 3]);
    assert_eq!(outcomes(&mut s, m::u128(), 4), vec![0, 1, 2, 3]);
    assert_eq!(outcomes(&mut s, m::usize(), 4), vec![0, 1, 2, 3]);
    assert_eq!(outcomes(&mut s, m::i8(), 4), vec![0, 1, 2, 3]);
    assert_eq!(outcomes(&mut s, m::i16(), 4), vec![0, 1, 2, 3]);
    assert_eq!(outcomes(&mut s, m::i32(), 4), vec![0, 1, 2, 3]);
    assert_eq!(outcomes(&mut s, m::i64(), 4), vec![0, 1, 2, 3]);
    assert_eq!(outcomes(&mut s, m::i128(), 4), vec![0, 1, 2, 3]);
    assert_eq!(outcomes(&mut s, m::isize(), 4), vec![0, 1, 2, 3]);
    assert_eq!(outcomes(&mut s, m::char(), '\u{4}'), vec!['\0', '\u{1}', '\u{2}', '\u{3}']);
}

#[test]
fn a_shrinking_draw_of_a_negative_value_reaches_every_value_up_to_zero() {
    let mut s = Session::new().shrink(true);
    assert_eq!(outcomes(&mut s, m::i8(), -4), vec![-3, -2, -1, 0]);
    assert_eq!(outcomes(&mut s, m::i16(), -4), vec![-3, -2, -1, 0]);
    assert_eq!(outcomes(&mut s, m::i32(), -4), vec![-3, -2, -1, 0]);
    assert_eq!(outcomes(&mut s, m::i64(), -4), vec![-3, -2, -1, 0]);
    assert_eq!(outcomes(&mut s, m::i128(), -4), vec![-3, -2, -1, 0]);
    assert_eq!(outcomes(&mut s, m::isize(), -4), vec![-3, -2, -1, 0]);
}

#[test]
fn a_shrinking_ranged_draw_reaches_every_value_up_to_the_old_one() {
    let mut s = Session::new().shrink(true);
    assert_eq!(outcomes(&mut s, m::range(3u8..=9), 6), vec![3, 4, 5, 6]);
    assert_eq!(outcomes(&mut s, m::range(-2i64..=9), 1), vec![-2, -1, 0, 1]);
    assert_eq!(outcomes(&mut s, m::range('a'..='z'), 'd'), vec!['a', 'b', 'c', 'd']);
    // A value above the range is drawn from all of the range.
    assert_eq!(outcomes(&mut s, m::range(3u32..=6), 100), vec![3, 4, 5, 6]);
}

#[test]
fn a_whole_type_draw_is_no_constant() {
    let mut s = Session::new();
    assert!(outcomes(&mut s, m::u8(), 0).len() > 100);
    assert!(outcomes(&mut s, m::i8(), 0).len() > 100);
    assert!(outcomes(&mut s, m::u64(), 0).len() > 290);
    assert!(outcomes(&mut s, m::i128(), 0).len() > 290);
    assert!(outcomes(&mut s, m::char(), 'a').len() > 200);
}
