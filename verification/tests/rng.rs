use mutatis::Rng;
use rand::Rng as _;

#[test]
fn gen_index_of_nothing_is_none() {
    let mut rng = Rng::default();
    assert_eq!(rng.gen_index(0), None);
}

#[test]
fn gen_index_of_one_is_zero() {
    let mut rng = Rng::default();
    for _ in 0..10 {
        assert_eq!(rng.gen_index(1), Some(0));
    }
}

#[test]
fn gen_index_stays_below_the_length_and_moves() {
    let mut rng = Rng::default();
    let mut seen = [false; 5];
    for _ in 0..200 {
        let index = rng.gen_index(5).unwrap();
        assert!(index < 5);
        seen[index] = true;
    }
    // The draw is no constant, and neither bound of the range.
    assert_eq!(seen, [true; 5]);
}

#[test]
fn choose_from_nothing_is_none() {
    let mut rng = Rng::default();
    let items: [u8; 0] = [];
    assert_eq!(rng.choose_from(&items), None);
}

#[test]
fn choose_from_picks_an_element() {
    let mut rng = Rng::default();
    let items = [10, 20, 30];
    let mut seen = [false; 3];
    for _ in 0..100 {
        let chosen = *rng.choose_from(&items).unwrap();
        let index = items.iter().position(|item| *item == chosen).unwrap();
        seen[index] = true;
    }
    assert_eq!(seen, [true; 3]);
    assert_eq!(rng.choose_from(&[7]), Some(&7));
}

#[test]
fn gen_bytes_fills_the_buffer() {
    let mut rng = Rng::default();
    let mut buf = [0u8; 64];
    rng.gen_bytes(&mut buf);
    assert_eq!(buf.len(), 64);
    assert!(buf.iter().any(|byte| *byte != 0));

    let mut empty: [u8; 0] = [];
    rng.gen_bytes(&mut empty);
}

#[test]
fn the_default_generator_is_reproducible() {
    let mut first = Rng::default();
    let mut second = Rng::default();
    for _ in 0..32 {
        assert_eq!(first.gen_u64(), second.gen_u64());
    }
}

#[test]
fn draws_cover_their_types() {
    let mut rng = Rng::default();
    let mut bools = [false; 2];
    let mut high_u8 = false;
    let mut negative_i8 = false;
    let mut negative_i64 = false;
    let mut large_u32 = false;
    let mut large_u128 = false;
    let mut chars = std::collections::BTreeSet::new();
    for _ in 0..200 {
        bools[rng.gen_bool() as usize] = true;
        high_u8 |= rng.gen_u8() >= 128;
        negative_i8 |= rng.gen_i8() < 0;
        negative_i64 |= rng.gen_i64() < 0;
        large_u32 |= rng.gen_u32() > u32::from(u16::MAX);
        large_u128 |= rng.gen_u128() > u128::from(u64::MAX);
        chars.insert(rng.gen_char());
        let _ = (rng.gen_u16(), rng.gen_u64(), rng.gen_usize());
        let _ = (rng.gen_i16(), rng.gen_i32(), rng.gen_i128(), rng.gen_isize());
    }
    assert_eq!(bools, [true; 2]);
    assert!(high_u8 && negative_i8 && negative_i64 && large_u32 && large_u128);
    assert!(chars.len() > 100);
}

#[test]
fn inner_is_the_generator_that_the_draws_come_from() {
    let mut wrapped = Rng::default();
    let mut bare = Rng::default();
    for _ in 0..16 {
        let expected = wrapped.gen_u64();
        let drawn: u64 = bare.inner().gen();
        assert_eq!(drawn, expected);
    }
    // A draw through the reference moves the generator on.
    let _: u64 = bare.inner().gen();
    assert_ne!(bare.gen_u64(), wrapped.gen_u64());
}

#[test]
fn gen_index_of_nothing_draws_nothing() {
    let mut used = Rng::default();
    let mut fresh = Rng::default();
    for _ in 0..5 {
        assert_eq!(used.gen_index(0), None);
    }
    for _ in 0..8 {
        assert_eq!(used.gen_u64(), fresh.gen_u64());
    }
}
