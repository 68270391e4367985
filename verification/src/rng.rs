//! The pseudo-random number generator behind every mutation.
//!
//! The generator is `rand`'s `SmallRng`. Its algorithm is not modelled here:
//! a draw is specified by the set of values it may return, so everything
//! that is proved about a mutation holds for every stream of draws.

use rand::rngs::SmallRng;
use rand::Rng as _;
use rand::SeedableRng;
use vstd::prelude::*;

verus! {

/// `rand`'s `SmallRng`, as a type that contracts do not look into.
#[verifier::external_type_specification]
#[verifier::external_body]
pub struct ExSmallRng(SmallRng);

/// The state in which `SeedableRng::seed_from_u64` starts a `SmallRng`: a
/// function of the seed alone, so that equal seeds start equal streams.
pub uninterp spec fn seeded(seed: u64) -> SmallRng;

/// A pseudo-random number generator.
///
/// Not cryptographically secure. A reference to the generator of the running
/// mutation is had from [`Context::rng`](crate::Context::rng).
#[derive(Debug)]
pub struct Rng {
    inner: SmallRng,
}

impl Default for Rng {
    /// The generator seeded with zero.
    fn default() -> (rng: Self)
        ensures
            rng.spec_inner() == seeded(0),
    {
        Rng::new(0)
    }
}

impl Rng {
    /// Seeds a generator with `SeedableRng::seed_from_u64`, which fills the
    /// state from the seed and from nothing else. The state is given its
    /// name, [`seeded`]; nothing more is claimed of it.
    #[verifier::external_body]
    pub(crate) fn new(seed: u64) -> (rng: Self)
        ensures
            rng.spec_inner() == seeded(seed),
    {
        Rng { inner: SmallRng::seed_from_u64(seed) }
    }

    /// The `SmallRng` that this generator wraps, as it stands.
    pub closed spec fn spec_inner(&self) -> SmallRng {
        self.inner
    }

    /// The generator that wraps `inner`.
    pub closed spec fn wrapping(inner: SmallRng) -> Rng {
        Rng { inner }
    }

    /// A generator is what it wraps, and nothing besides.
    pub broadcast proof fn lemma_wrapping(rng: Rng)
        ensures
            rng == Rng::wrapping(#[trigger] rng.spec_inner()),
    {
    }

    /// Wrapping keeps what is wrapped.
    pub broadcast proof fn lemma_wrapped(inner: SmallRng)
        ensures
            (#[trigger] Rng::wrapping(inner)).spec_inner() == inner,
    {
    }

    /// The generator itself, for draws that this type does not offer: the
    /// reference is to the `SmallRng` that this generator wraps, and
    /// whatever state it is left in is the state of this generator.
    pub fn inner(&mut self) -> (inner: &mut SmallRng)
        ensures
            *inner == old(self).spec_inner(),
            *final(self) == Rng::wrapping(*final(inner)),
    {
        &mut self.inner
    }

    /// A random index below `len`, or `None` when `len` is zero, and then
    /// nothing is drawn.
    pub fn gen_index(&mut self, len: usize) -> (index: Option<usize>)
        ensures
            index is None <==> len == 0,
            index matches Some(i) ==> i < len,
            len == 0 ==> *final(self) == *old(self),
    {
        if len == 0 {
            return None;
        }
        Some(self.gen_range_usize(0, len - 1))
    }

    /// A random element of `items`, or `None` when there is none.
    pub fn choose_from<'a, T>(&mut self, items: &'a [T]) -> (chosen: Option<&'a T>)
        ensures
            chosen is None <==> items@.len() == 0,
            chosen matches Some(item) ==> exists|i: int|
                0 <= i < items@.len() && *item == #[trigger] items@[i],
    {
        match self.gen_index(items.len()) {
            None => None,
            Some(index) => Some(&items[index]),
        }
    }

    /// Fills `buf` with random bytes through `Rng::fill`. The slice keeps its
    /// length; nothing is claimed of the bytes.
    #[verifier::external_body]
    pub fn gen_bytes(&mut self, buf: &mut [u8])
        ensures
            final(buf)@.len() == old(buf)@.len(),
    {
        self.inner.fill(buf);
    }

    /// A random `bool`, drawn with `Rng::gen`. Nothing is claimed of it.
    #[verifier::external_body]
    pub fn gen_bool(&mut self) -> bool {
        self.inner.gen()
    }

    /// A random `char`, drawn with `Rng::gen` from all Unicode scalar
    /// values. Nothing is claimed of it.
    #[verifier::external_body]
    pub fn gen_char(&mut self) -> char {
        self.inner.gen()
    }

    /// A random `char` drawn with `Rng::gen_range` from `low..=high`. The
    /// call panics on an empty range and otherwise returns a member of it.
    #[verifier::external_body]
    pub(crate) fn gen_range_char(&mut self, low: char, high: char) -> (drawn: char)
        requires
            low <= high,
        ensures
            low <= drawn <= high,
    {
        self.inner.gen_range(low..=high)
    }

    /// A random `char` drawn with `Rng::gen_range` from `'\0'..high`. The
    /// call panics on an empty range and otherwise returns a member of it.
    #[verifier::external_body]
    pub(crate) fn gen_char_below(&mut self, high: char) -> (drawn: char)
        requires
            high != '\0',
        ensures
            drawn < high,
    {
        self.inner.gen_range('\0'..high)
    }

    /// A random `u8`, drawn with `Rng::gen` from the whole type. Nothing is
    /// claimed of it.
    #[verifier::external_body]
    pub fn gen_u8(&mut self) -> u8 {
        self.inner.gen()
    }

    /// A random `u16`, drawn with `Rng::gen` from the whole type. Nothing is
    /// claimed of it.
    #[verifier::external_body]
    pub fn gen_u16(&mut self) -> u16 {
        self.inner.gen()
    }

    /// A random `u32`, drawn with `Rng::gen` from the whole type. Nothing is
    /// claimed of it.
    #[verifier::external_body]
    pub fn gen_u32(&mut self) -> u32 {
        self.inner.gen()
    }

    /// A random `u64`, drawn with `Rng::gen` from the whole type. Nothing is
    /// claimed of it.
    #[verifier::external_body]
    pub fn gen_u64(&mut self) -> u64 {
        self.inner.gen()
    }

    /// A random `u128`, drawn with `Rng::gen` from the whole type. Nothing is
    /// claimed of it.
    #[verifier::external_body]
    pub fn gen_u128(&mut self) -> u128 {
        self.inner.gen()
    }

    /// A random `usize`, drawn with `Rng::gen` from the whole type. Nothing is
    /// claimed of it.
    #[verifier::external_body]
    pub fn gen_usize(&mut self) -> usize {
        self.inner.gen()
    }

    /// A random `i8`, drawn with `Rng::gen` from the whole type. Nothing is
    /// claimed of it.
    #[verifier::external_body]
    pub fn gen_i8(&mut self) -> i8 {
        self.inner.gen()
    }

    /// A random `i16`, drawn with `Rng::gen` from the whole type. Nothing is
    /// claimed of it.
    #[verifier::external_body]
    pub fn gen_i16(&mut self) -> i16 {
        self.inner.gen()
    }

    /// A random `i32`, drawn with `Rng::gen` from the whole type. Nothing is
    /// claimed of it.
    #[verifier::external_body]
    pub fn gen_i32(&mut self) -> i32 {
        self.inner.gen()
    }

    /// A random `i64`, drawn with `Rng::gen` from the whole type. Nothing is
    /// claimed of it.
    #[verifier::external_body]
    pub fn gen_i64(&mut self) -> i64 {
        self.inner.gen()
    }

    /// A random `i128`, drawn with `Rng::gen` from the whole type. Nothing is
    /// claimed of it.
    #[verifier::external_body]
    pub fn gen_i128(&mut self) -> i128 {
        self.inner.gen()
    }

    /// A random `isize`, drawn with `Rng::gen` from the whole type. Nothing is
    /// claimed of it.
    #[verifier::external_body]
    pub fn gen_isize(&mut self) -> isize {
        self.inner.gen()
    }

    /// A random `u8` drawn with `Rng::gen_range` from `low..=high`. The call
    /// panics on an empty range and otherwise returns a member of it.
    #[verifier::external_body]
    pub(crate) fn gen_range_u8(&mut self, low: u8, high: u8) -> (drawn: u8)
        requires
            low <= high,
        ensures
            low <= drawn <= high,
    {
        self.inner.gen_range(low..=high)
    }

    /// A random `u16` drawn with `Rng::gen_range` from `low..=high`. The call
    /// panics on an empty range and otherwise returns a member of it.
    #[verifier::external_body]
    pub(crate) fn gen_range_u16(&mut self, low: u16, high: u16) -> (drawn: u16)
        requires
            low <= high,
        ensures
            low <= drawn <= high,
    {
        self.inner.gen_range(low..=high)
    }

    /// A random `u32` drawn with `Rng::gen_range` from `low..=high`. The call
    /// panics on an empty range and otherwise returns a member of it.
    #[verifier::external_body]
    pub(crate) fn gen_range_u32(&mut self, low: u32, high: u32) -> (drawn: u32)
        requires
            low <= high,
        ensures
            low <= drawn <= high,
    {
        self.inner.gen_range(low..=high)
    }

    /// A random `u64` drawn with `Rng::gen_range` from `low..=high`. The call
    /// panics on an empty range and otherwise returns a member of it.
    #[verifier::external_body]
    pub(crate) fn gen_range_u64(&mut self, low: u64, high: u64) -> (drawn: u64)
        requires
            low <= high,
        ensures
            low <= drawn <= high,
    {
        self.inner.gen_range(low..=high)
    }

    /// A random `u128` drawn with `Rng::gen_range` from `low..=high`. The call
    /// panics on an empty range and otherwise returns a member of it.
    #[verifier::external_body]
    pub(crate) fn gen_range_u128(&mut self, low: u128, high: u128) -> (drawn: u128)
        requires
            low <= high,
        ensures
            low <= drawn <= high,
    {
        self.inner.gen_range(low..=high)
    }

    /// A random `usize` drawn with `Rng::gen_range` from `low..=high`. The call
    /// panics on an empty range and otherwise returns a member of it.
    #[verifier::external_body]
    pub(crate) fn gen_range_usize(&mut self, low: usize, high: usize) -> (drawn: usize)
        requires
            low <= high,
        ensures
            low <= drawn <= high,
    {
        self.inner.gen_range(low..=high)
    }

    /// A random `i8` drawn with `Rng::gen_range` from `low..=high`. The call
    /// panics on an empty range and otherwise returns a member of it.
    #[verifier::external_body]
    pub(crate) fn gen_range_i8(&mut self, low: i8, high: i8) -> (drawn: i8)
        requires
            low <= high,
        ensures
            low <= drawn <= high,
    {
        self.inner.gen_range(low..=high)
    }

    /// A random `i16` drawn with `Rng::gen_range` from `low..=high`. The call
    /// panics on an empty range and otherwise returns a member of it.
    #[verifier::external_body]
    pub(crate) fn gen_range_i16(&mut self, low: i16, high: i16) -> (drawn: i16)
        requires
            low <= high,
        ensures
            low <= drawn <= high,
    {
        self.inner.gen_range(low..=high)
    }

    /// A random `i32` drawn with `Rng::gen_range` from `low..=high`. The call
    /// panics on an empty range and otherwise returns a member of it.
    #[verifier::external_body]
    pub(crate) fn gen_range_i32(&mut self, low: i32, high: i32) -> (drawn: i32)
        requires
            low <= high,
        ensures
            low <= drawn <= high,
    {
        self.inner.gen_range(low..=high)
    }

    /// A random `i64` drawn with `Rng::gen_range` from `low..=high`. The call
    /// panics on an empty range and otherwise returns a member of it.
    #[verifier::external_body]
    pub(crate) fn gen_range_i64(&mut self, low: i64, high: i64) -> (drawn: i64)
        requires
            low <= high,
        ensures
            low <= drawn <= high,
    {
        self.inner.gen_range(low..=high)
    }

    /// A random `i128` drawn with `Rng::gen_range` from `low..=high`. The call
    /// panics on an empty range and otherwise returns a member of it.
    #[verifier::external_body]
    pub(crate) fn gen_range_i128(&mut self, low: i128, high: i128) -> (drawn: i128)
        requires
            low <= high,
        ensures
            low <= drawn <= high,
    {
        self.inner.gen_range(low..=high)
    }

    /// A random `isize` drawn with `Rng::gen_range` from `low..=high`. The call
    /// panics on an empty range and otherwise returns a member of it.
    #[verifier::external_body]
    pub(crate) fn gen_range_isize(&mut self, low: isize, high: isize) -> (drawn: isize)
        requires
            low <= high,
        ensures
            low <= drawn <= high,
    {
        self.inner.gen_range(low..=high)
    }
}

} // verus!
