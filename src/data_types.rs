use vstd::prelude::*;
use vstd::string::*;
use crate::convert::{CqlCodec, ConversionError, FromCqlData, ToCqlData};
use crate::value::CqlType;

verus! {

/// How many replicas must answer a request.
#[derive(Debug, Clone, Copy, PartialEq, Eq, Structural)]
pub enum Consistency {
    One,
    Two,
}

/// An outcome flag stored as the text `Ok` or `NotOk`.
#[derive(Debug, Clone, Copy, PartialEq, Eq, Structural)]
pub enum Status {
    AllOk,
    NotOk,
}

pub open spec fn status_text(s: Status) -> Seq<char> {
    match s {
        Status::AllOk => "Ok"@,
        Status::NotOk => "NotOk"@,
    }
}

impl Status {
    /// The stored text of the status.
    pub fn to_string(&self) -> (r: String)
        ensures
            r@ == status_text(*self),
    {
        match self {
            Status::AllOk => String::from_str("Ok"),
            Status::NotOk => String::from_str("NotOk"),
        }
    }
}

impl ToCqlData for Status {
    open spec fn encodes_as(&self, v: CqlType) -> bool {
        v matches CqlType::Str(s) && s@ == status_text(*self)
    }

    fn to_cql(self) -> (r: CqlType) {
        CqlType::Str(self.to_string())
    }
}

impl FromCqlData for Status {
    open spec fn from_cql_spec(v: CqlType) -> Result<Status, ConversionError> {
        match v {
            CqlType::Str(s) => if s@ == "Ok"@ {
                Ok(Status::AllOk)
            } else if s@ == "NotOk"@ {
                Ok(Status::NotOk)
            } else {
                Err(ConversionError::InvalidValue)
            },
            _ => Err(ConversionError::TypeMismatch),
        }
    }

    fn from_cql(result: &CqlType) -> (r: Result<Status, ConversionError>) {
        match result {
            CqlType::Str(s) => {
                if *s == String::from_str("Ok") {
                    Ok(Status::AllOk)
                } else if *s == String::from_str("NotOk") {
                    Ok(Status::NotOk)
                } else {
                    Err(ConversionError::InvalidValue)
                }
            },
            _ => Err(ConversionError::TypeMismatch),
        }
    }
}

impl CqlCodec for Status {
    open spec fn valid(&self) -> bool {
        true
    }

    proof fn lemma_round_trip(x: Status, v: CqlType) {
        reveal_strlit("Ok");
        reveal_strlit("NotOk");
        assert("Ok"@.len() != "NotOk"@.len());
    }
}

/// A row identifier stored as a 64-bit integer.
#[derive(Debug, Clone, Copy, PartialEq, Eq, Structural)]
pub struct Uuid(pub i64);

impl ToCqlData for Uuid {
    open spec fn encodes_as(&self, v: CqlType) -> bool {
        v == CqlType::NumInt(self.0)
    }

    fn to_cql(self) -> (r: CqlType) {
        CqlType::NumInt(self.0)
    }
}

impl FromCqlData for Uuid {
    open spec fn from_cql_spec(v: CqlType) -> Result<Uuid, ConversionError> {
        match v {
            CqlType::NumInt(n) => Ok(Uuid(n)),
            _ => Err(ConversionError::TypeMismatch),
        }
    }

    fn from_cql(result: &CqlType) -> (r: Result<Uuid, ConversionError>) {
        match i64::from_cql(result) {
            Ok(n) => Ok(Uuid(n)),
            Err(e) => Err(e),
        }
    }
}

impl CqlCodec for Uuid {
    open spec fn valid(&self) -> bool {
        true
    }

    proof fn lemma_round_trip(x: Uuid, v: CqlType) {
    }
}

/// A double-precision number carried as its IEEE-754 binary64 bit pattern.
#[derive(Debug, Clone, Copy, PartialEq, Eq, Structural)]
pub struct DoubleBits {
    pub bits: u64,
}

impl ToCqlData for DoubleBits {
    open spec fn encodes_as(&self, v: CqlType) -> bool {
        v == CqlType::NumFloat(self.bits)
    }

    fn to_cql(self) -> (r: CqlType) {
        CqlType::NumFloat(self.bits)
    }
}

impl FromCqlData for DoubleBits {
    open spec fn from_cql_spec(v: CqlType) -> Result<DoubleBits, ConversionError> {
        match v {
            CqlType::NumFloat(bits) => Ok(DoubleBits { bits }),
            _ => Err(ConversionError::TypeMismatch),
        }
    }

    fn from_cql(result: &CqlType) -> (r: Result<DoubleBits, ConversionError>) {
        match result {
            CqlType::NumFloat(bits) => Ok(DoubleBits { bits: *bits }),
            _ => Err(ConversionError::TypeMismatch),
        }
    }
}

impl CqlCodec for DoubleBits {
    open spec fn valid(&self) -> bool {
        true
    }

    proof fn lemma_round_trip(x: DoubleBits, v: CqlType) {
    }
}

/// Whether the time crate can represent the instant `seconds` after the Unix
/// epoch, in UTC.
pub uninterp spec fn unix_seconds_valid(seconds: i64) -> bool;

/// The first second of the year -9999, UTC.
pub const MIN_UNIX_SECONDS: i64 = -377_705_116_800;

/// The last second of the year 9999, UTC.
pub const MAX_UNIX_SECONDS: i64 = 253_402_300_799;

/// Relies on `time::OffsetDateTime::from_unix_timestamp`, which accepts the
/// seconds exactly when they fall between the first instant of `Date::MIN` and
/// the last of `Date::MAX`. Those bounds are the years -9999 and 9999, or wider
/// where the crate's `large-dates` feature is on, so only the narrower range is
/// promised.
#[verifier::external_body]
fn unix_seconds_in_range(seconds: i64) -> (r: bool)
    ensures
        r == unix_seconds_valid(seconds),
        MIN_UNIX_SECONDS <= seconds <= MAX_UNIX_SECONDS ==> r,
{
    time::OffsetDateTime::from_unix_timestamp(seconds).is_ok()
}

/// An instant, in whole seconds since the Unix epoch (UTC).
#[derive(Debug, Clone, Copy, PartialEq, Eq, Structural)]
pub struct Timestamp {
    pub seconds: i64,
}

impl Timestamp {
    /// The instant `seconds` after the epoch, where it can be represented.
    pub fn from_unix_timestamp(seconds: i64) -> (r: Option<Timestamp>)
        ensures
            r is Some <==> unix_seconds_valid(seconds),
            r matches Some(t) ==> t.seconds == seconds,
            MIN_UNIX_SECONDS <= seconds <= MAX_UNIX_SECONDS ==> r is Some,
    {
        if unix_seconds_in_range(seconds) {
            Some(Timestamp { seconds })
        } else {
            None
        }
    }

    pub fn unix_timestamp(&self) -> (r: i64)
        ensures
            r == self.seconds,
    {
        self.seconds
    }
}

impl ToCqlData for Timestamp {
    open spec fn encodes_as(&self, v: CqlType) -> bool {
        v == CqlType::Timestamp(self.seconds)
    }

    fn to_cql(self) -> (r: CqlType) {
        CqlType::Timestamp(self.seconds)
    }
}

impl FromCqlData for Timestamp {
    open spec fn from_cql_spec(v: CqlType) -> Result<Timestamp, ConversionError> {
        match v {
            CqlType::Timestamp(seconds) => if unix_seconds_valid(seconds) {
                Ok(Timestamp { seconds })
            } else {
                Err(ConversionError::InvalidValue)
            },
            _ => Err(ConversionError::TypeMismatch),
        }
    }

    fn from_cql(result: &CqlType) -> (r: Result<Timestamp, ConversionError>) {
        match result {
            CqlType::Timestamp(seconds) => {
                if unix_seconds_in_range(*seconds) {
                    Ok(Timestamp { seconds: *seconds })
                } else {
                    Err(ConversionError::InvalidValue)
                }
            },
            _ => Err(ConversionError::TypeMismatch),
        }
    }
}

impl CqlCodec for Timestamp {
    open spec fn valid(&self) -> bool {
        unix_seconds_valid(self.seconds)
    }

    proof fn lemma_round_trip(x: Timestamp, v: CqlType) {
    }
}

} // verus!
