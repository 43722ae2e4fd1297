use vstd::prelude::*;
use vstd::string::*;
use crate::convert::{ConversionError, FromCqlData, ToCqlData};
use crate::text::{join, placeholders, push_joined, push_placeholders, suffixed, views};
use crate::value::{row_keys, row_model, same_lookups, unique_keys, CqlMap, CqlType, RowModel};

verus! {

/// `INSERT INTO <keyspace>.<table> (<fields>) VALUES(?,...)`, one placeholder
/// per field.
pub open spec fn insert_text(keyspace: Seq<char>, table: Seq<char>, fields: Seq<Seq<char>>) -> Seq<char> {
    "INSERT INTO "@ + keyspace + "."@ + table + " ("@ + join(fields, ","@) + ") VALUES("@
        + join(placeholders(fields.len()), ","@) + ")"@
}

/// The declared identity of a record type is consistent: field names are
/// distinct, there is at least one partition key, no key is named twice
/// (so none is both partition and clustering key), and every key is a field.
pub open spec fn identity_wf(
    fields: Seq<Seq<char>>,
    partition: Seq<Seq<char>>,
    clustering: Seq<Seq<char>>,
) -> bool {
    &&& fields.no_duplicates()
    &&& partition.len() > 0
    &&& (partition + clustering).no_duplicates()
    &&& forall|i: int| 0 <= i < partition.len() ==> fields.contains(#[trigger] partition[i])
    &&& forall|i: int| 0 <= i < clustering.len() ==> fields.contains(#[trigger] clustering[i])
}

/// Builds the insert statement of a record type from its field names in
/// declaration order.
pub fn insert_statement_text(keyspace: &str, table: &str, fields: &Vec<String>) -> (r: String)
    ensures
        r@ == insert_text(keyspace@, table@, views(fields@)),
{
    let mut out = String::from_str("INSERT INTO ");
    out.append(keyspace);
    out.append(".");
    out.append(table);
    out.append(" (");
    push_joined(&mut out, fields, "", ",");
    out.append(") VALUES(");
    push_placeholders(&mut out, fields.len());
    out.append(")");
    proof {
        reveal_strlit("");
        let names = views(fields@);
        assert forall|i: int| 0 <= i < names.len() implies suffixed(names, ""@)[i] == names[i] by {
            assert(names[i] + ""@ =~= names[i]);
        }
        assert(suffixed(names, ""@) =~= names);
    }
    out
}

/// The identity of a persistent record type: where it is stored, its fields
/// in declaration order, and its keys.
pub trait NoSql: ToCqlData + FromCqlData {
    spec fn spec_table() -> Seq<char>;

    spec fn spec_keyspace() -> Seq<char>;

    spec fn spec_fields() -> Seq<Seq<char>>;

    spec fn spec_partition_keys() -> Seq<Seq<char>>;

    spec fn spec_clustering_keys() -> Seq<Seq<char>>;

    /// The record that a row holds, read field by field by name.
    spec fn from_row_spec(m: RowModel) -> Result<Self, ConversionError>;

    fn table_name() -> (r: &'static str)
        ensures
            r@ == Self::spec_table(),
    ;

    fn keyspace() -> (r: &'static str)
        ensures
            r@ == Self::spec_keyspace(),
    ;

    fn fields() -> (r: Vec<String>)
        ensures
            views(r@) == Self::spec_fields(),
    ;

    fn partition_keys() -> (r: Vec<String>)
        ensures
            views(r@) == Self::spec_partition_keys(),
    ;

    fn clustering_keys() -> (r: Vec<String>)
        ensures
            views(r@) == Self::spec_clustering_keys(),
    ;

    fn from_row(m: &CqlMap) -> (r: Result<Self, ConversionError>)
        ensures
            r == Self::from_row_spec(row_model(m@)),
    ;

    fn insert_statement() -> (r: String)
        ensures
            r@ == insert_text(Self::spec_keyspace(), Self::spec_table(), Self::spec_fields()),
    {
        let fields = Self::fields();
        insert_statement_text(Self::keyspace(), Self::table_name(), &fields)
    }

    proof fn lemma_identity()
        ensures
            identity_wf(Self::spec_fields(), Self::spec_partition_keys(), Self::spec_clustering_keys()),
    ;

    proof fn lemma_encoding(x: Self, v: CqlType)
        requires
            x.encodes_as(v),
        ensures
            v matches CqlType::Row(m) && row_keys(row_model(m@)) == Self::spec_fields()
                && unique_keys(row_model(m@)),
    ;

    proof fn lemma_row_decoding(v: CqlType)
        ensures
            Self::from_cql_spec(v) == match v {
                CqlType::Row(m) => Self::from_row_spec(row_model(m@)),
                _ => Err(ConversionError::TypeMismatch),
            },
    ;

    proof fn lemma_decode_by_name(a: RowModel, b: RowModel)
        requires
            same_lookups(a, b),
        ensures
            Self::from_row_spec(a) == Self::from_row_spec(b),
    ;
}

/// The record value of an instance holds exactly the type's declared fields,
/// in declaration order, each once.
pub proof fn record_fields_exact<T: NoSql>(x: T, v: CqlType)
    requires
        x.encodes_as(v),
    ensures
        v matches CqlType::Row(m) && row_keys(row_model(m@)) == T::spec_fields()
            && unique_keys(row_model(m@)),
{
    T::lemma_encoding(x, v);
}

} // verus!
