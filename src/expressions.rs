use vstd::prelude::*;

verus! {

/// A column type of the store.
pub trait CqlType {}

/// Marks a Rust type whose values a column of type `T` can hold, so that the
/// pairing is checked when the program is compiled.
pub trait AsExpression<T: CqlType> {}

pub struct Boolean;

pub struct Int;

pub struct BigInt;

pub struct Text;

pub struct Blob;

/// A list of `T`.
pub struct List<T>(pub T);

impl CqlType for Boolean {}

impl CqlType for Int {}

impl CqlType for BigInt {}

impl CqlType for Text {}

impl CqlType for Blob {}

impl<T: CqlType> CqlType for List<T> {}

impl AsExpression<Boolean> for bool {}

impl AsExpression<Int> for i32 {}

impl AsExpression<Int> for u32 {}

impl AsExpression<BigInt> for i64 {}

impl AsExpression<BigInt> for u64 {}

impl AsExpression<Text> for String {}

impl AsExpression<Blob> for Vec<u8> {}

impl<T: CqlType> AsExpression<List<T>> for Vec<T> {}

} // verus!
