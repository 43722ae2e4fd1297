use vstd::prelude::*;
use vstd::string::*;
use crate::client::{Insertable, Selectable, Updateable};
use crate::convert::{CqlCodec, ConversionError, FromCqlData, ToCqlData};
use crate::data_types::DoubleBits;
use crate::filter::{filter_keys, where_text, FilterBy};
use crate::model::NoSql;
use crate::text::views;
use crate::value::{
    lookup, map_get, row_keys, row_model, CqlMap, CqlType, RowModel,
};

verus! {

/// A payment, stored in `test.payments`, keyed by `id` and clustered by
/// `status`.
#[derive(Debug, PartialEq, Eq)]
pub struct Payment {
    pub id: i64,
    pub status: String,
    pub amount: DoubleBits,
}

impl Payment {
    pub fn new(id: i64, status: String, amount: DoubleBits) -> (r: Payment)
        ensures
            r.id == id,
            r.status == status,
            r.amount == amount,
    {
        Payment { id, status, amount }
    }

    /// The record a row holds, each field read by name.
    pub open spec fn row_spec(m: RowModel) -> Result<Payment, ConversionError> {
        match lookup(m, "id"@) {
            None => Err(ConversionError::MissingField),
            Some(a) => match i64::from_cql_spec(a) {
                Err(e) => Err(e),
                Ok(id) => match lookup(m, "status"@) {
                    None => Err(ConversionError::MissingField),
                    Some(b) => match String::from_cql_spec(b) {
                        Err(e) => Err(e),
                        Ok(status) => match lookup(m, "amount"@) {
                            None => Err(ConversionError::MissingField),
                            Some(c) => match DoubleBits::from_cql_spec(c) {
                                Err(e) => Err(e),
                                Ok(amount) => Ok(Payment { id, status, amount }),
                            },
                        },
                    },
                },
            },
        }
    }

    fn read_row(m: &CqlMap) -> (r: Result<Payment, ConversionError>)
        ensures
            r == Payment::row_spec(row_model(m@)),
    {
        let id = match map_get(m, &String::from_str("id")) {
            None => return Err(ConversionError::MissingField),
            Some(a) => match i64::from_cql(a) {
                Err(e) => return Err(e),
                Ok(id) => id,
            },
        };
        let status = match map_get(m, &String::from_str("status")) {
            None => return Err(ConversionError::MissingField),
            Some(b) => match String::from_cql(b) {
                Err(e) => return Err(e),
                Ok(status) => status,
            },
        };
        let amount = match map_get(m, &String::from_str("amount")) {
            None => return Err(ConversionError::MissingField),
            Some(c) => match DoubleBits::from_cql(c) {
                Err(e) => return Err(e),
                Ok(amount) => amount,
            },
        };
        Ok(Payment { id, status, amount })
    }

    /// A filter on the partition key `id`.
    pub fn filter_by_id(id: i64) -> (r: FilterBy<Payment>)
        ensures
            r.spec_query() == where_text(seq!["id"@]),
            r.spec_binds() == seq![("id"@, CqlType::NumInt(id))],
    {
        let mut values: Vec<CqlType> = Vec::new();
        values.push(id.to_cql());
        let r = FilterBy::<Payment>::by_keys(values);
        assert(filter_keys::<Payment>(1) =~= seq!["id"@]);
        assert(r->Ok_0.spec_binds() =~= seq![("id"@, CqlType::NumInt(id))]);
        r.unwrap()
    }

    /// A filter on the partition key `id` and the clustering key `status`.
    pub fn filter_by_id_status(id: i64, status: String) -> (r: FilterBy<Payment>)
        ensures
            r.spec_query() == where_text(seq!["id"@, "status"@]),
            r.spec_binds() == seq![("id"@, CqlType::NumInt(id)), ("status"@, CqlType::Str(status))],
    {
        let mut values: Vec<CqlType> = Vec::new();
        values.push(id.to_cql());
        values.push(status.to_cql());
        let r = FilterBy::<Payment>::by_keys(values);
        assert(filter_keys::<Payment>(2) =~= seq!["id"@, "status"@]);
        assert(r->Ok_0.spec_binds() =~= seq![
            ("id"@, CqlType::NumInt(id)),
            ("status"@, CqlType::Str(status)),
        ]);
        r.unwrap()
    }
}

impl ToCqlData for Payment {
    open spec fn encodes_as(&self, v: CqlType) -> bool {
        v matches CqlType::Row(m) && row_keys(row_model(m@)) == seq!["id"@, "status"@, "amount"@]
            && self.id.encodes_as(m@[0].1) && self.status.encodes_as(m@[1].1)
            && self.amount.encodes_as(m@[2].1)
    }

    fn to_cql(self) -> (r: CqlType) {
        let mut m: CqlMap = Vec::new();
        m.push((String::from_str("id"), self.id.to_cql()));
        m.push((String::from_str("status"), self.status.to_cql()));
        m.push((String::from_str("amount"), self.amount.to_cql()));
        assert(row_keys(row_model(m@)) =~= seq!["id"@, "status"@, "amount"@]);
        CqlType::Row(m)
    }
}

impl FromCqlData for Payment {
    open spec fn from_cql_spec(v: CqlType) -> Result<Payment, ConversionError> {
        match v {
            CqlType::Row(m) => Payment::row_spec(row_model(m@)),
            _ => Err(ConversionError::TypeMismatch),
        }
    }

    fn from_cql(result: &CqlType) -> (r: Result<Payment, ConversionError>) {
        match result {
            CqlType::Row(m) => Payment::read_row(m),
            _ => Err(ConversionError::TypeMismatch),
        }
    }
}

proof fn lemma_payment_names_distinct()
    ensures
        "id"@ != "status"@,
        "id"@ != "amount"@,
        "status"@ != "amount"@,
{
    reveal_strlit("id");
    reveal_strlit("status");
    reveal_strlit("amount");
    assert("id"@.len() != "status"@.len());
    assert("id"@.len() != "amount"@.len());
    assert("status"@[0] != "amount"@[0]);
}

impl NoSql for Payment {
    open spec fn spec_table() -> Seq<char> {
        "payments"@
    }

    open spec fn spec_keyspace() -> Seq<char> {
        "test"@
    }

    open spec fn spec_fields() -> Seq<Seq<char>> {
        seq!["id"@, "status"@, "amount"@]
    }

    open spec fn spec_partition_keys() -> Seq<Seq<char>> {
        seq!["id"@]
    }

    open spec fn spec_clustering_keys() -> Seq<Seq<char>> {
        seq!["status"@]
    }

    open spec fn from_row_spec(m: RowModel) -> Result<Payment, ConversionError> {
        Payment::row_spec(m)
    }

    fn table_name() -> (r: &'static str) {
        "payments"
    }

    fn keyspace() -> (r: &'static str) {
        "test"
    }

    fn fields() -> (r: Vec<String>) {
        let r = vec![String::from_str("id"), String::from_str("status"), String::from_str("amount")];
        assert(views(r@) =~= Self::spec_fields());
        r
    }

    fn partition_keys() -> (r: Vec<String>) {
        let r = vec![String::from_str("id")];
        assert(views(r@) =~= Self::spec_partition_keys());
        r
    }

    fn clustering_keys() -> (r: Vec<String>) {
        let r = vec![String::from_str("status")];
        assert(views(r@) =~= Self::spec_clustering_keys());
        r
    }

    fn from_row(m: &CqlMap) -> (r: Result<Payment, ConversionError>) {
        Payment::read_row(m)
    }

    proof fn lemma_identity() {
        lemma_payment_names_distinct();
        let f = Self::spec_fields();
        assert(f.no_duplicates());
        let keys = Self::spec_partition_keys() + Self::spec_clustering_keys();
        assert(keys =~= seq!["id"@, "status"@]);
        assert(keys.no_duplicates());
        assert(f[0] == "id"@ && f[1] == "status"@);
        assert(f.contains(f[0]) && f.contains(f[1]));
    }

    proof fn lemma_encoding(x: Payment, v: CqlType) {
        Self::lemma_identity();
    }

    proof fn lemma_row_decoding(v: CqlType) {
    }

    proof fn lemma_decode_by_name(a: RowModel, b: RowModel) {
        assert(lookup(a, "id"@) == lookup(b, "id"@));
        assert(lookup(a, "status"@) == lookup(b, "status"@));
        assert(lookup(a, "amount"@) == lookup(b, "amount"@));
    }
}

impl CqlCodec for Payment {
    open spec fn valid(&self) -> bool {
        true
    }

    proof fn lemma_round_trip(x: Payment, v: CqlType) {
        lemma_payment_names_distinct();
        let m = v->Row_0;
        let model = row_model(m@);
        let keys = row_keys(model);
        let names = seq!["id"@, "status"@, "amount"@];
        assert(keys == names);
        assert(names.len() == 3 && names[0] == "id"@ && names[1] == "status"@ && names[2] == "amount"@);
        assert(model.len() == 3);
        assert(keys[0] == model[0].0 && keys[1] == model[1].0 && keys[2] == model[2].0);
        assert(model.drop_first()[0] == model[1]);
        assert(model.drop_first().drop_first()[0] == model[2]);
        reveal_with_fuel(lookup, 3);
        assert(lookup(model, "id"@) == Some(m@[0].1));
        assert(lookup(model, "status"@) == Some(m@[1].1));
        assert(lookup(model, "amount"@) == Some(m@[2].1));
        <i64 as CqlCodec>::lemma_round_trip(x.id, m@[0].1);
        <String as CqlCodec>::lemma_round_trip(x.status, m@[1].1);
        <DoubleBits as CqlCodec>::lemma_round_trip(x.amount, m@[2].1);
    }
}

impl Insertable for Payment {}

impl Selectable for Payment {}

/// A change to the `status` of payments.
#[derive(Debug, PartialEq, Eq)]
pub struct UpdatePayment {
    pub status: String,
}

impl Updateable for UpdatePayment {
    type ParentModel = Payment;

    open spec fn spec_set(&self) -> RowModel {
        seq![("status"@, CqlType::Str(self.status))]
    }

    fn set_binds(self) -> (r: CqlMap) {
        let mut m: CqlMap = Vec::new();
        m.push((String::from_str("status"), self.status.to_cql()));
        assert(row_model(m@) =~= seq![("status"@, CqlType::Str(self.status))]);
        assert(row_keys(row_model(m@)) =~= seq!["status"@]);
        m
    }
}

} // verus!
