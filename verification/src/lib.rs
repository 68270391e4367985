//! Structure-aware mutation of values, for property tests and fuzzers.
//!
//! A mutator does not make values from nothing: it takes an existing value
//! and turns it into a nearby one, or, in shrink mode, into a simpler one.
//!
//! - A [`Session`] holds the random number generator and the mode, and
//!   mutates a value with a mutator: [`Session::mutate`],
//!   [`Session::mutate_with`].
//! - A mutator implements [`Mutate`]. It registers each edit that it could
//!   make of a value with the [`Candidates`] registry, and the session runs
//!   exactly one of them, chosen uniformly ([`context`]).
//! - The module [`mutators`] has mutators for the scalar types, for arrays,
//!   tuples, `Option` and `Result`, and the combinators that build mutators
//!   from mutators.
//! - A [`check::Check`] runs a property on a corpus of values and on values
//!   mutated from it, and shrinks the first value on which the property
//!   fails.
//!
//! The contracts describe a mutator by three functions of the mutator, the
//! value and the mode: whether it rejects the value, how many candidates it
//! has for it, and what each candidate can make of it. What a mutation does
//! is stated over these ([`context::mutated`]). Of a draw from the
//! generator only the range it lies in is stated, so what is proved holds for
//! every seed; the contracts do say where a draw is made and where none is.

pub mod check;
pub mod context;
pub mod error;
pub mod laws;
pub mod mutate;
pub mod mutators;
pub mod rng;
pub mod session;

pub use context::{Candidates, Context};
pub use error::{Error, ErrorKind, ErrorMessage, Result, ResultExt};
pub use mutate::{DefaultMutate, Generate, Mutate, MutateInRange};
pub use rng::Rng;
pub use session::Session;
