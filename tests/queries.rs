use sin_cql::client::{Insertable, Selectable, Updateable};
use sin_cql::data_types::{DoubleBits, Timestamp};
use sin_cql::filter::{FilterBy, FilterError};
use sin_cql::migration::{extract_version, MigrationError};
use sin_cql::model::{insert_statement_text, NoSql};
use sin_cql::payment::{Payment, UpdatePayment};
use sin_cql::query::{select_limit_statement_text, select_statement_text, update_statement_text};
use sin_cql::query_builder::CassandraQuery;
use sin_cql::schema::Schema;
use sin_cql::select::SelectBuilder;
use sin_cql::value::CqlType;

fn names(m: &Vec<(String, CqlType)>) -> Vec<String> {
    m.iter().map(|(k, _)| k.clone()).collect()
}

#[test]
fn insert_text_for_declared_fields() {
    let fields = vec!["id".to_string(), "status".to_string(), "amount".to_string()];
    assert_eq!(
        insert_statement_text("ks", "tbl", &fields),
        "INSERT INTO ks.tbl (id,status,amount) VALUES(?,?,?)"
    );
    assert_eq!(
        Payment::insert_statement(),
        "INSERT INTO test.payments (id,status,amount) VALUES(?,?,?)"
    );
    assert_eq!(
        Schema::insert_statement(),
        "INSERT INTO metadata.migration_metadata (version,time,is_run) VALUES(?,?,?)"
    );
}

#[test]
fn insert_text_single_field() {
    let fields = vec!["k".to_string()];
    assert_eq!(insert_statement_text("a", "b", &fields), "INSERT INTO a.b (k) VALUES(?)");
}

#[test]
fn filter_orders_partition_then_clustering() {
    let status_value = "paid".to_string();
    let f = Payment::filter_by_id_status(7, status_value);
    assert_eq!(f.query_string(), "id = ? AND status = ?");
    assert_eq!(names(f.binds()), vec!["id", "status"]);
    assert_eq!(f.binds()[0].1, CqlType::NumInt(7));
    assert_eq!(f.binds()[1].1, CqlType::Str("paid".to_string()));
}

#[test]
fn single_key_filter_has_no_conjunction() {
    let f = Payment::filter_by_id(3);
    assert_eq!(f.query_string(), "id = ?");
    let g = Schema::filter_by_version("20240101".to_string());
    assert_eq!(g.query_string(), "version = ?");
}

#[test]
fn key_filter_needs_the_whole_partition_key() {
    let none: Vec<CqlType> = Vec::new();
    assert_eq!(
        FilterBy::<Payment>::by_keys(none).err(),
        Some(FilterError::WrongKeyCount)
    );
    let three = vec![CqlType::NumInt(1), CqlType::Str("a".to_string()), CqlType::Null];
    assert_eq!(
        FilterBy::<Payment>::by_keys(three).err(),
        Some(FilterError::WrongKeyCount)
    );
}

#[test]
fn filter_from_record_columns() {
    let m = vec![
        ("a".to_string(), CqlType::NumInt(1)),
        ("b".to_string(), CqlType::Bool(true)),
        ("c".to_string(), CqlType::Null),
    ];
    let f = FilterBy::<Payment>::new(m);
    assert_eq!(f.query_string(), "a = ? AND b = ? AND c = ?");
}

#[test]
fn select_one_with_filter() {
    let q = Payment::select().filter_by(Payment::filter_by_id(1)).build();
    assert_eq!(q.query(), "SELECT * FROM test.payments WHERE id = ?");
    assert_eq!(names(q.binds()), vec!["id"]);
}

#[test]
fn select_all_with_filter() {
    let q = Payment::select_all()
        .filter_by(Payment::filter_by_id_status(1, "new".to_string()))
        .build();
    assert_eq!(q.query(), "SELECT * FROM test.payments WHERE id = ? AND status = ?");
    assert_eq!(names(q.binds()), vec!["id", "status"]);
}

#[test]
fn select_all_with_limit_only() {
    let q = Payment::select_all().limit(2).build();
    assert_eq!(q.query(), "SELECT * FROM test.payments LIMIT 2");
    assert!(q.binds().is_empty());
    assert_eq!(
        select_limit_statement_text("ks", "Payments", 2),
        "SELECT * FROM ks.Payments LIMIT 2"
    );
}

#[test]
fn limit_text_is_decimal() {
    assert_eq!(select_limit_statement_text("k", "t", 0), "SELECT * FROM k.t LIMIT 0");
    assert_eq!(select_limit_statement_text("k", "t", 10), "SELECT * FROM k.t LIMIT 10");
    assert_eq!(
        select_limit_statement_text("k", "t", u64::MAX),
        "SELECT * FROM k.t LIMIT 18446744073709551615"
    );
}

#[test]
fn update_with_filter() {
    let q = UpdatePayment { status: "refunded".to_string() }
        .update()
        .filter_by(Payment::filter_by_id(5))
        .build();
    assert_eq!(q.query(), "UPDATE test.payments SET status = ? WHERE id = ?");
    assert_eq!(names(q.set_binds()), vec!["status"]);
    assert_eq!(names(q.where_binds()), vec!["id"]);
    assert_eq!(q.set_binds()[0].1, CqlType::Str("refunded".to_string()));
}

#[test]
fn statement_text_functions() {
    assert_eq!(select_statement_text("k", "t", "a = ?"), "SELECT * FROM k.t WHERE a = ?");
    assert_eq!(
        update_statement_text("k", "t", "a = ?, b = ?", "c = ?"),
        "UPDATE k.t SET a = ?, b = ? WHERE c = ?"
    );
}

#[test]
fn insert_builder_keeps_record() {
    let p = Payment::new(1, "s".to_string(), DoubleBits { bits: 0 });
    let c = p.create().build();
    assert_eq!(c.model, Payment::new(1, "s".to_string(), DoubleBits { bits: 0 }));
    let t = Timestamp::from_unix_timestamp(5).unwrap();
    let s = Schema::new("1".to_string(), t, true).create().build();
    assert_eq!(s.model.version, "1");
}

#[test]
fn select_all_with_clause() {
    let select = SelectBuilder::<Payment>::new(Vec::new())
        .wh()
        .eq(String::from("payment_id"))
        .limit(2);

    let expected = "SELECT * FROM test.payments WHERE payment_id = ? LIMIT 2 ";
    assert_eq!(select.query(), expected);
}

#[test]
fn select_all_and_or_clause() {
    let select = SelectBuilder::<Payment>::new(Vec::new())
        .wh()
        .eq(String::from("payment_id"))
        .and()
        .eq(String::from("status"))
        .or()
        .eq(String::from("currency"))
        .limit(2);

    let expected =
        "SELECT * FROM test.payments WHERE payment_id = ? AND status = ? OR currency = ? LIMIT 2 ";
    assert_eq!(select.query(), expected);
}

#[test]
fn select_all_without_clause() {
    let select = SelectBuilder::<Payment>::new(Vec::new()).build();

    let expected = "SELECT * FROM test.payments ";
    assert_eq!(select.query(), expected);
}

#[test]
fn clause_chain_comparisons() {
    let q = SelectBuilder::<Schema>::new(Vec::new())
        .wh()
        .gt("a".to_string())
        .and()
        .gte("b".to_string())
        .and()
        .lt("c".to_string())
        .and()
        .lte("d".to_string())
        .build();
    assert_eq!(
        q.query(),
        "SELECT * FROM metadata.migration_metadata WHERE a > ? AND b >= ? AND c < ? AND d <= ? "
    );
}

#[test]
fn cassandra_query_appends() {
    let mut q = CassandraQuery::new();
    q.push_cql("SELECT ");
    q.push_cql("*");
    q.push_decimal(305);
    assert_eq!(q.query(), "SELECT *305");
}

#[test]
fn version_of_migration_directory() {
    assert_eq!(extract_version("1700000000_create_users"), Ok("1700000000".to_string()));
    assert_eq!(extract_version("12_a_b"), Ok("12".to_string()));
    assert_eq!(extract_version("_x"), Ok(String::new()));
    assert_eq!(extract_version("noversion"), Err(MigrationError::MigrationPathError));
    assert_eq!(extract_version(""), Err(MigrationError::MigrationPathError));
}
