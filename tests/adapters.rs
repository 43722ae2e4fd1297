use sin_cql::adapter::{ColumnRows, ToCqlRow};
use sin_cql::client::{Insertable, Selectable, Updateable};
use sin_cql::data_types::DoubleBits;
use sin_cql::payment::{Payment, UpdatePayment};
use sin_cql::query::{Create, FindAll, FindOne};
use sin_cql::value::CqlType;

fn payment(id: i64, status: &str) -> Payment {
    Payment::new(id, status.to_string(), DoubleBits { bits: 1.5f64.to_bits() })
}

fn session_row(id: i64, status: &str) -> Vec<(String, CqlType)> {
    vec![
        ("id".to_string(), CqlType::NumInt(id)),
        ("status".to_string(), CqlType::Str(status.to_string())),
        ("amount".to_string(), CqlType::NumFloat(1.5f64.to_bits())),
    ]
}

fn proxy_rows(rows: &[(i64, &str)]) -> ColumnRows {
    ColumnRows {
        columns: vec!["amount".to_string(), "status".to_string(), "id".to_string()],
        rows: rows
            .iter()
            .map(|(id, status)| {
                vec![
                    CqlType::NumFloat(1.5f64.to_bits()),
                    CqlType::Str(status.to_string()),
                    CqlType::NumInt(*id),
                ]
            })
            .collect(),
    }
}

#[test]
fn both_adapters_decode_the_same_record() {
    let from_session = FindOne::<Payment>::session_output(vec![session_row(8, "paid")]);
    let from_proxy = FindOne::<Payment>::proxy_output(proxy_rows(&[(8, "paid")]));
    assert_eq!(from_session, Some(payment(8, "paid")));
    assert_eq!(from_proxy, Some(payment(8, "paid")));
}

#[test]
fn no_row_decodes_to_nothing() {
    assert_eq!(FindOne::<Payment>::session_output(Vec::new()), None);
    assert_eq!(FindOne::<Payment>::proxy_output(proxy_rows(&[])), None);
}

#[test]
fn find_all_keeps_row_order() {
    let session = FindAll::<Payment>::session_output(vec![session_row(1, "a"), session_row(2, "b")]);
    let proxy = FindAll::<Payment>::proxy_output(proxy_rows(&[(1, "a"), (2, "b")]));
    assert_eq!(session, Some(vec![payment(1, "a"), payment(2, "b")]));
    assert_eq!(proxy, session);
}

#[test]
fn find_all_fails_on_an_undecodable_row() {
    let bad = vec![("id".to_string(), CqlType::NumInt(1))];
    assert_eq!(FindAll::<Payment>::session_output(vec![session_row(1, "a"), bad]), None);
}

#[test]
fn proxy_rows_pair_values_with_column_names() {
    let rows = proxy_rows(&[(4, "x")]).to_rows();
    assert_eq!(rows.len(), 1);
    assert_eq!(rows[0][0], ("amount".to_string(), CqlType::NumFloat(1.5f64.to_bits())));
    assert_eq!(rows[0][2], ("id".to_string(), CqlType::NumInt(4)));
}

#[test]
fn insert_statement_binds_follow_columns() {
    let st = payment(3, "new").create().build().session_statement();
    assert_eq!(st.query_string, "INSERT INTO test.payments (id,status,amount) VALUES(?,?,?)");
    assert_eq!(st.binds, session_row(3, "new"));
    let named = Create::create_query(payment(3, "new")).proxy_statement();
    assert_eq!(named.keyspace, "test");
    assert_eq!(named.binds, session_row(3, "new"));
    assert_eq!(Create::<Payment>::insert_output(), Some(true));
}

#[test]
fn select_statement_for_each_transport() {
    let q = Payment::select().filter_by(Payment::filter_by_id(9)).build();
    let st = q.session_statement();
    assert_eq!(st.query_string, "SELECT * FROM test.payments WHERE id = ?");
    assert_eq!(st.binds, vec![("id".to_string(), CqlType::NumInt(9))]);
    let q = Payment::select().filter_by(Payment::filter_by_id(9)).build();
    let named = q.proxy_statement();
    assert_eq!(named.query_str, "SELECT * FROM test.payments WHERE id = ?");
    assert_eq!(named.keyspace, "test");
}

#[test]
fn update_statement_binds_set_then_where() {
    let q = UpdatePayment { status: "void".to_string() }
        .update()
        .filter_by(Payment::filter_by_id(2))
        .build();
    let st = q.session_statement();
    assert_eq!(st.query_string, "UPDATE test.payments SET status = ? WHERE id = ?");
    assert_eq!(
        st.binds,
        vec![
            ("status".to_string(), CqlType::Str("void".to_string())),
            ("id".to_string(), CqlType::NumInt(2)),
        ]
    );
}
