use vstd::prelude::*;
use crate::value::CqlType;

verus! {

/// Why a value could not be turned back into a typed field or record.
#[derive(Debug, Clone, Copy, PartialEq, Eq, Structural)]
pub enum ConversionError {
    /// The value's variant is not the one the target type is stored as.
    TypeMismatch,
    /// A record lacks a column that the target type declares.
    MissingField,
    /// The variant fits but its content names no value of the target type.
    InvalidValue,
}

/// Conversion of a typed field or record into a `CqlType`; it never fails.
pub trait ToCqlData: Sized {
    /// Holds when `v` is what `self` converts to.
    spec fn encodes_as(&self, v: CqlType) -> bool;

    fn to_cql(self) -> (r: CqlType)
        ensures
            self.encodes_as(r),
    ;
}

/// Reconstruction of a typed field or record from a `CqlType`.
pub trait FromCqlData: Sized {
    spec fn from_cql_spec(v: CqlType) -> Result<Self, ConversionError>;

    fn from_cql(result: &CqlType) -> (r: Result<Self, ConversionError>)
        ensures
            r == Self::from_cql_spec(*result),
    ;
}

/// A type whose conversions undo each other.
pub trait CqlCodec: ToCqlData + FromCqlData {
    /// The instances the type can hold meaningfully.
    spec fn valid(&self) -> bool;

    proof fn lemma_round_trip(x: Self, v: CqlType)
        requires
            x.valid(),
            x.encodes_as(v),
        ensures
            Self::from_cql_spec(v) == Ok::<Self, ConversionError>(x),
    ;
}

/// Converting a valid instance to a value and back gives the instance again.
pub proof fn round_trip<T: CqlCodec>(x: T, v: CqlType)
    requires
        x.valid(),
        x.encodes_as(v),
    ensures
        T::from_cql_spec(v) == Ok::<T, ConversionError>(x),
{
    T::lemma_round_trip(x, v);
}

impl ToCqlData for String {
    open spec fn encodes_as(&self, v: CqlType) -> bool {
        v == CqlType::Str(*self)
    }

    fn to_cql(self) -> (r: CqlType) {
        CqlType::Str(self)
    }
}

impl FromCqlData for String {
    open spec fn from_cql_spec(v: CqlType) -> Result<String, ConversionError> {
        match v {
            CqlType::Str(s) => Ok(s),
            _ => Err(ConversionError::TypeMismatch),
        }
    }

    fn from_cql(result: &CqlType) -> (r: Result<String, ConversionError>) {
        match result {
            CqlType::Str(s) => Ok(s.clone()),
            _ => Err(ConversionError::TypeMismatch),
        }
    }
}

impl CqlCodec for String {
    open spec fn valid(&self) -> bool {
        true
    }

    proof fn lemma_round_trip(x: String, v: CqlType) {
    }
}

impl ToCqlData for i64 {
    open spec fn encodes_as(&self, v: CqlType) -> bool {
        v == CqlType::NumInt(*self)
    }

    fn to_cql(self) -> (r: CqlType) {
        CqlType::NumInt(self)
    }
}

impl FromCqlData for i64 {
    open spec fn from_cql_spec(v: CqlType) -> Result<i64, ConversionError> {
        match v {
            CqlType::NumInt(n) => Ok(n),
            _ => Err(ConversionError::TypeMismatch),
        }
    }

    fn from_cql(result: &CqlType) -> (r: Result<i64, ConversionError>) {
        match result {
            CqlType::NumInt(n) => Ok(*n),
            _ => Err(ConversionError::TypeMismatch),
        }
    }
}

impl CqlCodec for i64 {
    open spec fn valid(&self) -> bool {
        true
    }

    proof fn lemma_round_trip(x: i64, v: CqlType) {
    }
}

impl ToCqlData for bool {
    open spec fn encodes_as(&self, v: CqlType) -> bool {
        v == CqlType::Bool(*self)
    }

    fn to_cql(self) -> (r: CqlType) {
        CqlType::Bool(self)
    }
}

impl FromCqlData for bool {
    open spec fn from_cql_spec(v: CqlType) -> Result<bool, ConversionError> {
        match v {
            CqlType::Bool(b) => Ok(b),
            _ => Err(ConversionError::TypeMismatch),
        }
    }

    fn from_cql(result: &CqlType) -> (r: Result<bool, ConversionError>) {
        match result {
            CqlType::Bool(b) => Ok(*b),
            _ => Err(ConversionError::TypeMismatch),
        }
    }
}

impl CqlCodec for bool {
    open spec fn valid(&self) -> bool {
        true
    }

    proof fn lemma_round_trip(x: bool, v: CqlType) {
    }
}

} // verus!
