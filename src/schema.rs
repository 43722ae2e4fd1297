use vstd::prelude::*;
use vstd::string::*;
use crate::client::{Insertable, Selectable};
use crate::convert::{CqlCodec, ConversionError, FromCqlData, ToCqlData};
use crate::data_types::Timestamp;
use crate::filter::{filter_keys, where_text, FilterBy};
use crate::model::NoSql;
use crate::text::views;
use crate::value::{
    lookup, map_get, row_keys, row_model, CqlMap, CqlType, RowModel,
};

verus! {

/// The record that tracks one applied migration: its version, when it ran, and
/// whether it completed.
#[derive(Debug, PartialEq, Eq)]
pub struct Schema {
    pub version: String,
    pub time: Timestamp,
    pub is_run: bool,
}

impl Schema {
    pub fn new(version: String, time: Timestamp, is_run: bool) -> (r: Schema)
        ensures
            r.version == version,
            r.time == time,
            r.is_run == is_run,
    {
        Schema { version, time, is_run }
    }

    /// The record a row holds, each field read by name.
    pub open spec fn row_spec(m: RowModel) -> Result<Schema, ConversionError> {
        match lookup(m, "version"@) {
            None => Err(ConversionError::MissingField),
            Some(a) => match String::from_cql_spec(a) {
                Err(e) => Err(e),
                Ok(version) => match lookup(m, "time"@) {
                    None => Err(ConversionError::MissingField),
                    Some(b) => match Timestamp::from_cql_spec(b) {
                        Err(e) => Err(e),
                        Ok(time) => match lookup(m, "is_run"@) {
                            None => Err(ConversionError::MissingField),
                            Some(c) => match bool::from_cql_spec(c) {
                                Err(e) => Err(e),
                                Ok(is_run) => Ok(Schema { version, time, is_run }),
                            },
                        },
                    },
                },
            },
        }
    }

    fn read_row(m: &CqlMap) -> (r: Result<Schema, ConversionError>)
        ensures
            r == Schema::row_spec(row_model(m@)),
    {
        let version = match map_get(m, &String::from_str("version")) {
            None => return Err(ConversionError::MissingField),
            Some(a) => match String::from_cql(a) {
                Err(e) => return Err(e),
                Ok(version) => version,
            },
        };
        let time = match map_get(m, &String::from_str("time")) {
            None => return Err(ConversionError::MissingField),
            Some(b) => match Timestamp::from_cql(b) {
                Err(e) => return Err(e),
                Ok(time) => time,
            },
        };
        let is_run = match map_get(m, &String::from_str("is_run")) {
            None => return Err(ConversionError::MissingField),
            Some(c) => match bool::from_cql(c) {
                Err(e) => return Err(e),
                Ok(is_run) => is_run,
            },
        };
        Ok(Schema { version, time, is_run })
    }

    /// A filter on the partition key `version`.
    pub fn filter_by_version(version: String) -> (r: FilterBy<Schema>)
        ensures
            r.spec_query() == where_text(seq!["version"@]),
            r.spec_binds() == seq![("version"@, CqlType::Str(version))],
    {
        let mut values: Vec<CqlType> = Vec::new();
        values.push(version.to_cql());
        let r = FilterBy::<Schema>::by_keys(values);
        assert(filter_keys::<Schema>(1) =~= seq!["version"@]);
        assert(r->Ok_0.spec_binds() =~= seq![("version"@, CqlType::Str(version))]);
        r.unwrap()
    }
}

impl ToCqlData for Schema {
    open spec fn encodes_as(&self, v: CqlType) -> bool {
        v matches CqlType::Row(m) && row_keys(row_model(m@)) == seq!["version"@, "time"@, "is_run"@]
            && self.version.encodes_as(m@[0].1) && self.time.encodes_as(m@[1].1)
            && self.is_run.encodes_as(m@[2].1)
    }

    fn to_cql(self) -> (r: CqlType) {
        let mut m: CqlMap = Vec::new();
        m.push((String::from_str("version"), self.version.to_cql()));
        m.push((String::from_str("time"), self.time.to_cql()));
        m.push((String::from_str("is_run"), self.is_run.to_cql()));
        assert(row_keys(row_model(m@)) =~= seq!["version"@, "time"@, "is_run"@]);
        CqlType::Row(m)
    }
}

impl FromCqlData for Schema {
    open spec fn from_cql_spec(v: CqlType) -> Result<Schema, ConversionError> {
        match v {
            CqlType::Row(m) => Schema::row_spec(row_model(m@)),
            _ => Err(ConversionError::TypeMismatch),
        }
    }

    fn from_cql(result: &CqlType) -> (r: Result<Schema, ConversionError>) {
        match result {
            CqlType::Row(m) => Schema::read_row(m),
            _ => Err(ConversionError::TypeMismatch),
        }
    }
}

impl NoSql for Schema {
    open spec fn spec_table() -> Seq<char> {
        "migration_metadata"@
    }

    open spec fn spec_keyspace() -> Seq<char> {
        "metadata"@
    }

    open spec fn spec_fields() -> Seq<Seq<char>> {
        seq!["version"@, "time"@, "is_run"@]
    }

    open spec fn spec_partition_keys() -> Seq<Seq<char>> {
        seq!["version"@]
    }

    open spec fn spec_clustering_keys() -> Seq<Seq<char>> {
        Seq::empty()
    }

    open spec fn from_row_spec(m: RowModel) -> Result<Schema, ConversionError> {
        Schema::row_spec(m)
    }

    fn table_name() -> (r: &'static str) {
        "migration_metadata"
    }

    fn keyspace() -> (r: &'static str) {
        "metadata"
    }

    fn fields() -> (r: Vec<String>) {
        let r = vec![String::from_str("version"), String::from_str("time"), String::from_str("is_run")];
        assert(views(r@) =~= Self::spec_fields());
        r
    }

    fn partition_keys() -> (r: Vec<String>) {
        let r = vec![String::from_str("version")];
        assert(views(r@) =~= Self::spec_partition_keys());
        r
    }

    fn clustering_keys() -> (r: Vec<String>) {
        let r: Vec<String> = Vec::new();
        assert(views(r@) =~= Self::spec_clustering_keys());
        r
    }

    fn from_row(m: &CqlMap) -> (r: Result<Schema, ConversionError>) {
        Schema::read_row(m)
    }

    proof fn lemma_identity() {
        reveal_strlit("version");
        reveal_strlit("time");
        reveal_strlit("is_run");
        let f = Self::spec_fields();
        assert(f[0].len() != f[1].len() && f[0].len() != f[2].len() && f[1].len() != f[2].len());
        assert(f.no_duplicates());
        assert(Self::spec_partition_keys() + Self::spec_clustering_keys() =~= seq!["version"@]);
        assert(f.contains(f[0]));
    }

    proof fn lemma_encoding(x: Schema, v: CqlType) {
        Self::lemma_identity();
    }

    proof fn lemma_row_decoding(v: CqlType) {
    }

    proof fn lemma_decode_by_name(a: RowModel, b: RowModel) {
        assert(lookup(a, "version"@) == lookup(b, "version"@));
        assert(lookup(a, "time"@) == lookup(b, "time"@));
        assert(lookup(a, "is_run"@) == lookup(b, "is_run"@));
    }
}

impl CqlCodec for Schema {
    open spec fn valid(&self) -> bool {
        self.time.valid()
    }

    proof fn lemma_round_trip(x: Schema, v: CqlType) {
        reveal_strlit("version");
        reveal_strlit("time");
        reveal_strlit("is_run");
        let m = v->Row_0;
        let model = row_model(m@);
        let keys = row_keys(model);
        let names = seq!["version"@, "time"@, "is_run"@];
        assert(keys == names);
        assert(names.len() == 3 && names[0] == "version"@ && names[1] == "time"@ && names[2] == "is_run"@);
        assert(model.len() == 3);
        assert(keys[0] == model[0].0 && keys[1] == model[1].0 && keys[2] == model[2].0);
        assert("version"@.len() != "time"@.len() && "version"@.len() != "is_run"@.len()
            && "time"@.len() != "is_run"@.len());
        assert(model.drop_first()[0] == model[1]);
        assert(model.drop_first().drop_first()[0] == model[2]);
        reveal_with_fuel(lookup, 3);
        assert(lookup(model, "version"@) == Some(m@[0].1));
        assert(lookup(model, "time"@) == Some(m@[1].1));
        assert(lookup(model, "is_run"@) == Some(m@[2].1));
        <String as CqlCodec>::lemma_round_trip(x.version, m@[0].1);
        <Timestamp as CqlCodec>::lemma_round_trip(x.time, m@[1].1);
        <bool as CqlCodec>::lemma_round_trip(x.is_run, m@[2].1);
    }
}

impl Insertable for Schema {}

impl Selectable for Schema {}

} // verus!
