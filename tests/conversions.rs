use sin_cql::convert::{ConversionError, FromCqlData, ToCqlData};
use sin_cql::data_types::{DoubleBits, Status, Timestamp, Uuid};
use sin_cql::model::NoSql;
use sin_cql::payment::Payment;
use sin_cql::schema::Schema;
use sin_cql::value::CqlType;

fn keys(v: &CqlType) -> Vec<String> {
    match v {
        CqlType::Row(m) => m.iter().map(|(k, _)| k.clone()).collect(),
        _ => panic!("not a record"),
    }
}

fn sample_payment() -> Payment {
    Payment::new(42, "paid".to_string(), DoubleBits { bits: 12.5f64.to_bits() })
}

#[test]
fn text_round_trip() {
    let v = "hello".to_string().to_cql();
    assert_eq!(v, CqlType::Str("hello".to_string()));
    assert_eq!(String::from_cql(&v), Ok("hello".to_string()));
}

#[test]
fn integer_round_trip() {
    for n in [0i64, -1, i64::MIN, i64::MAX] {
        let v = n.to_cql();
        assert_eq!(v, CqlType::NumInt(n));
        assert_eq!(i64::from_cql(&v), Ok(n));
    }
}

#[test]
fn boolean_round_trip() {
    for b in [true, false] {
        assert_eq!(bool::from_cql(&b.to_cql()), Ok(b));
    }
}

#[test]
fn status_round_trip_and_text() {
    assert_eq!(Status::AllOk.to_cql(), CqlType::Str("Ok".to_string()));
    assert_eq!(Status::NotOk.to_cql(), CqlType::Str("NotOk".to_string()));
    assert_eq!(Status::from_cql(&Status::AllOk.to_cql()), Ok(Status::AllOk));
    assert_eq!(Status::from_cql(&Status::NotOk.to_cql()), Ok(Status::NotOk));
    assert_eq!(Status::NotOk.to_string(), "NotOk");
}

#[test]
fn status_rejects_other_text() {
    assert_eq!(
        Status::from_cql(&CqlType::Str("ok".to_string())),
        Err(ConversionError::InvalidValue)
    );
    assert_eq!(Status::from_cql(&CqlType::NumInt(1)), Err(ConversionError::TypeMismatch));
}

#[test]
fn uuid_and_double_round_trip() {
    assert_eq!(Uuid::from_cql(&Uuid(9).to_cql()), Ok(Uuid(9)));
    let d = DoubleBits { bits: (-0.25f64).to_bits() };
    let back = DoubleBits::from_cql(&d.to_cql()).unwrap();
    assert_eq!(f64::from_bits(back.bits), -0.25);
}

#[test]
fn timestamp_round_trip_and_range() {
    let t = Timestamp::from_unix_timestamp(1_546_300_800).unwrap();
    assert_eq!(t.to_cql(), CqlType::Timestamp(1_546_300_800));
    assert_eq!(Timestamp::from_cql(&t.to_cql()), Ok(t));
    assert!(Timestamp::from_unix_timestamp(253_402_300_799).is_some());
    assert!(Timestamp::from_unix_timestamp(-377_705_116_800).is_some());
    assert!(Timestamp::from_unix_timestamp(i64::MAX).is_none());
    assert_eq!(
        Timestamp::from_cql(&CqlType::Timestamp(i64::MIN)),
        Err(ConversionError::InvalidValue)
    );
}

#[test]
fn scalar_type_mismatch() {
    assert_eq!(String::from_cql(&CqlType::NumInt(1)), Err(ConversionError::TypeMismatch));
    assert_eq!(i64::from_cql(&CqlType::Null), Err(ConversionError::TypeMismatch));
    assert_eq!(bool::from_cql(&CqlType::NumFloat(0)), Err(ConversionError::TypeMismatch));
    assert_eq!(
        Timestamp::from_cql(&CqlType::NumInt(0)),
        Err(ConversionError::TypeMismatch)
    );
}

#[test]
fn payment_round_trip() {
    let v = sample_payment().to_cql();
    assert_eq!(Payment::from_cql(&v), Ok(sample_payment()));
}

#[test]
fn schema_round_trip() {
    let t = Timestamp::from_unix_timestamp(1_700_000_000).unwrap();
    let s = Schema::new("1700000000".to_string(), t, true);
    let v = Schema::new("1700000000".to_string(), t, true).to_cql();
    assert_eq!(Schema::from_cql(&v), Ok(s));
}

#[test]
fn record_has_exactly_declared_fields() {
    let v = sample_payment().to_cql();
    assert_eq!(keys(&v), vec!["id", "status", "amount"]);
    let fields: Vec<String> = Payment::fields();
    assert_eq!(keys(&v), fields);
    let t = Timestamp::from_unix_timestamp(0).unwrap();
    let s = Schema::new("v".to_string(), t, false).to_cql();
    assert_eq!(keys(&s), vec!["version", "time", "is_run"]);
}

#[test]
fn record_missing_field() {
    let row = vec![
        ("id".to_string(), CqlType::NumInt(1)),
        ("status".to_string(), CqlType::Str("paid".to_string())),
    ];
    assert_eq!(
        Payment::from_cql(&CqlType::Row(row)),
        Err(ConversionError::MissingField)
    );
}

#[test]
fn record_field_of_wrong_kind() {
    let row = vec![
        ("id".to_string(), CqlType::Str("1".to_string())),
        ("status".to_string(), CqlType::Str("paid".to_string())),
        ("amount".to_string(), CqlType::NumFloat(0)),
    ];
    assert_eq!(
        Payment::from_cql(&CqlType::Row(row)),
        Err(ConversionError::TypeMismatch)
    );
    assert_eq!(Payment::from_cql(&CqlType::Null), Err(ConversionError::TypeMismatch));
}

#[test]
fn record_decodes_by_name_in_any_order() {
    let row = vec![
        ("amount".to_string(), CqlType::NumFloat(12.5f64.to_bits())),
        ("status".to_string(), CqlType::Str("paid".to_string())),
        ("extra".to_string(), CqlType::Null),
        ("id".to_string(), CqlType::NumInt(42)),
    ];
    assert_eq!(Payment::from_cql(&CqlType::Row(row)), Ok(sample_payment()));
}
