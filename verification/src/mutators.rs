//! The provided mutators and combinators.
//!
//! It is idiomatic to import this module under the name `m`.

pub mod array;
pub mod combinators;
pub mod option;
pub mod range;
pub mod result;
pub mod scalars;
pub mod signed;
pub mod tuples;
pub mod unsigned;

pub use array::{array, counted, edited, rejected, Array};
pub use combinators::{just, maps_to, part_of, Just, MapMutator, Or, Proj};
pub use option::{fills, none, option, some, NoneMutator, Option, SomeMutator};
pub use range::{outcome, range, range_with, Range};
pub use result::{result, Result};
pub use scalars::{block_end, block_start, bool, char, unit, Bool, Char, Unit, CHAR_BLOCKS};
pub use signed::{i128, i16, i32, i64, i8, isize, I128, I16, I32, I64, I8, Isize};
pub use tuples::{
    tuple1, tuple2, tuple3, tuple4, tuple5, tuple6, tuple7, tuple8, tuple9, tuple10,
    tuple11, tuple12, tuple13, tuple14, tuple15, tuple16, Tuple1, Tuple2, Tuple3, Tuple4,
    Tuple5, Tuple6, Tuple7, Tuple8, Tuple9, Tuple10, Tuple11, Tuple12, Tuple13, Tuple14,
    Tuple15, Tuple16,
};
pub use unsigned::{u128, u16, u32, u64, u8, usize, U128, U16, U32, U64, U8, Usize};

use crate::mutate::DefaultMutate;
use vstd::prelude::*;

verus! {

/// The default mutator for a type: whatever `Default` makes of the type's
/// [`DefaultMutate::DefaultMutate`].
pub fn default<T>() -> (mutator: <T as DefaultMutate>::DefaultMutate) where T: DefaultMutate
    ensures
        call_ensures(<T as DefaultMutate>::DefaultMutate::default, (), mutator),
{
    T::DefaultMutate::default()
}

} // verus!
