use vstd::prelude::*;
use vstd::string::*;
use crate::model::{insert_text, NoSql};
use crate::query::{Create, FindAll, FindOne, QueryResultType, Update};
use crate::text::views;
use crate::value::{
    lemma_row_model_push, row_keys, row_model, same_lookups, unique_keys, zip_model, CqlMap, CqlType, RowModel,
};

verus! {

/// The request and response shapes of one transport.
pub trait CqlStore {
    type Output;
    type Statement;
}

/// A persistent session on the binary protocol. Statements are prepared and
/// take their binds by position; rows come back as records.
pub struct SessionStore;

/// A gateway reached through a remote call interface. Statements carry the
/// keyspace and named binds; rows come back as values beside column specs.
pub struct ProxyStore;

/// A statement for the session: its text and its binds, in placeholder order.
#[derive(Debug, PartialEq)]
pub struct ScyllaQuery {
    pub query_string: String,
    pub binds: CqlMap,
}

/// A statement for the gateway: keyspace, text and named binds.
#[derive(Debug, PartialEq)]
pub struct AstrStatement {
    pub query_str: String,
    pub binds: CqlMap,
    pub keyspace: String,
}

impl AstrStatement {
    pub fn new(query_str: String, binds: CqlMap, keyspace: String) -> (r: AstrStatement)
        ensures
            r.query_str == query_str,
            r.binds == binds,
            r.keyspace == keyspace,
    {
        AstrStatement { query_str, binds, keyspace }
    }
}

/// A gateway response: the column names, and each row's values in that order.
#[derive(Debug, PartialEq)]
pub struct ColumnRows {
    pub columns: Vec<String>,
    pub rows: Vec<Vec<CqlType>>,
}

impl CqlStore for SessionStore {
    type Output = Vec<CqlMap>;
    type Statement = ScyllaQuery;
}

impl CqlStore for ProxyStore {
    type Output = ColumnRows;
    type Statement = AstrStatement;
}

/// The records that session rows hold.
pub open spec fn session_rows(rows: Seq<CqlMap>) -> Seq<RowModel> {
    rows.map_values(|m: CqlMap| row_model(m@))
}

/// The records that a gateway response holds: each row's values paired with
/// the column names by position.
pub open spec fn proxy_rows(columns: Seq<String>, rows: Seq<Vec<CqlType>>) -> Seq<RowModel> {
    rows.map_values(|vals: Vec<CqlType>| zip_model(views(columns), vals@))
}

/// The first row decoded as a `T`; nothing where there is no row or it does
/// not decode.
pub open spec fn decode_first<T: NoSql>(rows: Seq<RowModel>) -> Option<T> {
    if rows.len() == 0 {
        None
    } else {
        match T::from_row_spec(rows[0]) {
            Ok(x) => Some(x),
            Err(_) => None,
        }
    }
}

/// Every row decoded as a `T`, in order; nothing where one does not decode.
pub open spec fn decode_all<T: NoSql>(rows: Seq<RowModel>) -> Option<Seq<T>> {
    if forall|i: int| 0 <= i < rows.len() ==> (#[trigger] T::from_row_spec(rows[i])) is Ok {
        Some(Seq::new(rows.len(), |i: int| T::from_row_spec(rows[i])->Ok_0))
    } else {
        None
    }
}

/// Rows that hold the same logical records decode to the same typed results,
/// however each transport ordered the columns.
pub proof fn adapter_parity<T: NoSql>(a: Seq<RowModel>, b: Seq<RowModel>)
    requires
        a.len() == b.len(),
        forall|i: int| 0 <= i < a.len() ==> same_lookups(#[trigger] a[i], b[i]),
    ensures
        decode_first::<T>(a) == decode_first::<T>(b),
        decode_all::<T>(a) == decode_all::<T>(b),
{
    assert forall|i: int| 0 <= i < a.len() implies T::from_row_spec(a[i]) == T::from_row_spec(b[i]) by {
        T::lemma_decode_by_name(a[i], b[i]);
    }
    if a.len() > 0 {
        T::lemma_decode_by_name(a[0], b[0]);
    }
    if decode_all::<T>(a) is Some {
        assert(decode_all::<T>(b) is Some);
        assert(decode_all::<T>(a)->Some_0 =~= decode_all::<T>(b)->Some_0);
    } else {
        assert(decode_all::<T>(b) is None);
    }
}

/// Pairs each column name with the value at its position.
pub fn zip_row(columns: &Vec<String>, values: Vec<CqlType>) -> (r: CqlMap)
    ensures
        row_model(r@) == zip_model(views(columns@), values@),
        views(columns@).no_duplicates() ==> unique_keys(row_model(r@)),
{
    let ghost vals = values@;
    let n = if columns.len() <= values.len() {
        columns.len()
    } else {
        values.len()
    };
    let mut rest = values;
    let mut m: CqlMap = Vec::new();
    let mut i: usize = 0;
    while i < n
        invariant
            n <= columns@.len(),
            n <= vals.len(),
            i <= n,
            rest@ == vals.skip(i as int),
            row_model(m@) == zip_model(views(columns@).take(i as int), vals.take(i as int)),
        decreases n - i,
    {
        let v = rest.remove(0);
        assert(vals.skip(i as int).remove(0) =~= vals.skip(i + 1));
        let name = columns[i].clone();
        proof {
            lemma_row_model_push(m@, (name, v));
        }
        m.push((name, v));
        i = i + 1;
        assert(row_model(m@) =~= zip_model(views(columns@).take(i as int), vals.take(i as int)));
    }
    assert(zip_model(views(columns@).take(n as int), vals.take(n as int)) =~= zip_model(
        views(columns@),
        vals,
    ));
    proof {
        lemma_zip_keys_unique(views(columns@), vals);
    }
    m
}

/// Distinct column names give a row with distinct names.
proof fn lemma_zip_keys_unique(names: Seq<Seq<char>>, vals: Seq<CqlType>)
    ensures
        names.no_duplicates() ==> unique_keys(zip_model(names, vals)),
{
    let keys = row_keys(zip_model(names, vals));
    assert forall|i: int| 0 <= i < keys.len() implies keys[i] == names[i] by {}
}

/// Conversion of a transport response into records.
pub trait ToCqlRow {
    type Output;

    fn to_rows(self) -> Vec<Self::Output>;
}

impl ToCqlRow for ColumnRows {
    type Output = CqlMap;

    /// Each row, in order, as a record keyed by column name; distinct column
    /// names give records with distinct names.
    fn to_rows(self) -> (r: Vec<CqlMap>)
        ensures
            session_rows(r@) == proxy_rows(self.columns@, self.rows@),
            views(self.columns@).no_duplicates() ==> forall|i: int|
                0 <= i < r@.len() ==> unique_keys(#[trigger] session_rows(r@)[i]),
    {
        let ghost rows = self.rows@;
        let columns = self.columns;
        let mut rest = self.rows;
        let mut out: Vec<CqlMap> = Vec::new();
        let n = rest.len();
        let mut i: usize = 0;
        while i < n
            invariant
                n == rows.len(),
                i <= n,
                rest@ == rows.skip(i as int),
                columns@ == self.columns@,
                session_rows(out@) =~= proxy_rows(columns@, rows.take(i as int)),
            decreases n - i,
        {
            let row = rest.remove(0);
            assert(rows.skip(i as int).remove(0) =~= rows.skip(i + 1));
            assert(row == rows[i as int]);
            let m = zip_row(&columns, row);
            let ghost before = out@;
            out.push(m);
            proof {
                assert(out@ == before.push(m));
                assert(session_rows(out@) =~= session_rows(before).push(row_model(m@)));
                assert(rows.take(i + 1) =~= rows.take(i as int).push(rows[i as int]));
                assert(proxy_rows(columns@, rows.take(i + 1)) =~= proxy_rows(columns@, rows.take(i as int)).push(
                    zip_model(views(columns@), rows[i as int]@),
                ));
            }
            i = i + 1;
        }
        assert(rows.take(n as int) =~= rows);
        proof {
            assert forall|i: int| 0 <= i < out@.len() implies unique_keys(#[trigger] session_rows(out@)[i])
                || !views(columns@).no_duplicates() by {
                lemma_zip_keys_unique(views(columns@), rows[i]@);
            }
        }
        out
    }
}

/// Decodes the first row, if there is one and it holds a `T`.
fn first_record<T: NoSql>(rows: &Vec<CqlMap>) -> (r: Option<T>)
    ensures
        r == decode_first::<T>(session_rows(rows@)),
{
    if rows.len() == 0 {
        None
    } else {
        match T::from_row(&rows[0]) {
            Ok(x) => Some(x),
            Err(_) => None,
        }
    }
}

/// Decodes every row, or nothing where one of them does not hold a `T`.
fn all_records<T: NoSql>(rows: &Vec<CqlMap>) -> (r: Option<Vec<T>>)
    ensures
        r is Some <==> decode_all::<T>(session_rows(rows@)) is Some,
        r matches Some(v) ==> v@ == decode_all::<T>(session_rows(rows@))->Some_0,
{
    let ghost models = session_rows(rows@);
    let mut out: Vec<T> = Vec::new();
    let mut i: usize = 0;
    while i < rows.len()
        invariant
            i <= rows@.len(),
            models == session_rows(rows@),
            out@.len() == i,
            forall|j: int| 0 <= j < i ==> (#[trigger] T::from_row_spec(models[j])) is Ok,
            forall|j: int| 0 <= j < i ==> out@[j] == T::from_row_spec(models[j])->Ok_0,
        decreases rows@.len() - i,
    {
        match T::from_row(&rows[i]) {
            Ok(x) => out.push(x),
            Err(_) => {
                assert(T::from_row_spec(models[i as int]) is Err);
                return None;
            },
        }
        i = i + 1;
    }
    assert(out@ =~= decode_all::<T>(models)->Some_0);
    Some(out)
}

/// The record of an instance, which its conversion always makes.
fn record_of<T: NoSql>(model: T) -> (r: CqlMap)
    ensures
        model.encodes_as(CqlType::Row(r)),
        row_keys(row_model(r@)) == T::spec_fields(),
{
    let v = model.to_cql();
    proof {
        T::lemma_encoding(model, v);
    }
    match v {
        CqlType::Row(m) => m,
        _ => {
            proof {
                assert(false);
            }
            Vec::new()
        },
    }
}

/// How a query object runs on the transport `S`: the statement it becomes,
/// and the typed result read from the response.
pub trait QueryInterface<S: CqlStore>: QueryResultType {
    /// Holds when `r` is what the response `query_output` decodes to.
    spec fn output_of(query_output: S::Output, r: Option<Self::Output>) -> bool;

    /// Holds when `r` is the statement that the query object becomes.
    spec fn statement_of(&self, r: S::Statement) -> bool;

    fn into_output(query_output: S::Output) -> (r: Option<Self::Output>)
        ensures
            Self::output_of(query_output, r),
    ;

    fn into_statement(self) -> (r: S::Statement)
        ensures
            self.statement_of(r),
    ;
}

impl<T: NoSql> FindOne<T> {
    /// The session statement: the query text and its binds in placeholder order.
    pub fn session_statement(self) -> (r: ScyllaQuery)
        ensures
            r.query_string@ == self.spec_query(),
            row_model(r.binds@) == self.spec_binds(),
    {
        let (binds, query_string) = self.into_parts();
        ScyllaQuery { query_string, binds }
    }

    /// The gateway statement: keyspace, query text and named binds.
    pub fn proxy_statement(self) -> (r: AstrStatement)
        ensures
            r.query_str@ == self.spec_query(),
            row_model(r.binds@) == self.spec_binds(),
            r.keyspace@ == T::spec_keyspace(),
    {
        let (binds, query_str) = self.into_parts();
        AstrStatement::new(query_str, binds, String::from_str(T::keyspace()))
    }

    /// The first session row as a `T`; nothing where there is none.
    pub fn session_output(rows: Vec<CqlMap>) -> (r: Option<T>)
        ensures
            r == decode_first::<T>(session_rows(rows@)),
    {
        first_record::<T>(&rows)
    }

    /// The first gateway row as a `T`; nothing where there is none.
    pub fn proxy_output(response: ColumnRows) -> (r: Option<T>)
        ensures
            r == decode_first::<T>(proxy_rows(response.columns@, response.rows@)),
    {
        let rows = response.to_rows();
        first_record::<T>(&rows)
    }
}

impl<T: NoSql> FindAll<T> {
    /// The session statement: the query text and its binds in placeholder order.
    pub fn session_statement(self) -> (r: ScyllaQuery)
        ensures
            r.query_string@ == self.spec_query(),
            row_model(r.binds@) == self.spec_binds(),
    {
        let (binds, query_string) = self.into_parts();
        ScyllaQuery { query_string, binds }
    }

    /// The gateway statement: keyspace, query text and named binds.
    pub fn proxy_statement(self) -> (r: AstrStatement)
        ensures
            r.query_str@ == self.spec_query(),
            row_model(r.binds@) == self.spec_binds(),
            r.keyspace@ == T::spec_keyspace(),
    {
        let (binds, query_str) = self.into_parts();
        AstrStatement::new(query_str, binds, String::from_str(T::keyspace()))
    }

    /// Every session row as a `T`, in order.
    pub fn session_output(rows: Vec<CqlMap>) -> (r: Option<Vec<T>>)
        ensures
            r is Some <==> decode_all::<T>(session_rows(rows@)) is Some,
            r matches Some(v) ==> v@ == decode_all::<T>(session_rows(rows@))->Some_0,
    {
        all_records::<T>(&rows)
    }

    /// Every gateway row as a `T`, in order.
    pub fn proxy_output(response: ColumnRows) -> (r: Option<Vec<T>>)
        ensures
            r is Some <==> decode_all::<T>(proxy_rows(response.columns@, response.rows@)) is Some,
            r matches Some(v) ==> v@ == decode_all::<T>(
                proxy_rows(response.columns@, response.rows@),
            )->Some_0,
    {
        let rows = response.to_rows();
        all_records::<T>(&rows)
    }
}

impl<T: NoSql> Create<T> {
    /// The insert statement, with the record's values in column order.
    pub fn session_statement(self) -> (r: ScyllaQuery)
        ensures
            r.query_string@ == insert_text(T::spec_keyspace(), T::spec_table(), T::spec_fields()),
            self.model.encodes_as(CqlType::Row(r.binds)),
            row_keys(row_model(r.binds@)) == T::spec_fields(),
    {
        let binds = record_of(self.model);
        ScyllaQuery { query_string: T::insert_statement(), binds }
    }

    /// The insert statement, the record's values named by column, and the
    /// keyspace.
    pub fn proxy_statement(self) -> (r: AstrStatement)
        ensures
            r.query_str@ == insert_text(T::spec_keyspace(), T::spec_table(), T::spec_fields()),
            self.model.encodes_as(CqlType::Row(r.binds)),
            row_keys(row_model(r.binds@)) == T::spec_fields(),
            r.keyspace@ == T::spec_keyspace(),
    {
        let binds = record_of(self.model);
        AstrStatement::new(T::insert_statement(), binds, String::from_str(T::keyspace()))
    }

    /// An insert returns no rows: a response is success.
    pub fn insert_output() -> (r: Option<bool>)
        ensures
            r == Some(true),
    {
        Some(true)
    }
}

/// `a` followed by `b`.
fn concat_binds(a: CqlMap, b: CqlMap) -> (r: CqlMap)
    ensures
        row_model(r@) == row_model(a@) + row_model(b@),
{
    let ghost start = a@;
    let ghost second = b@;
    let mut out = a;
    let mut rest = b;
    let n = rest.len();
    let mut i: usize = 0;
    while i < n
        invariant
            n == second.len(),
            i <= n,
            rest@ == second.skip(i as int),
            row_model(out@) == row_model(start) + row_model(second.take(i as int)),
        decreases n - i,
    {
        let e = rest.remove(0);
        assert(second.skip(i as int).remove(0) =~= second.skip(i + 1));
        proof {
            lemma_row_model_push(out@, e);
            assert(row_model(second.take(i + 1)) =~= row_model(second.take(i as int)).push((e.0@, e.1)));
        }
        out.push(e);
        i = i + 1;
        assert(row_model(out@) =~= row_model(start) + row_model(second.take(i as int)));
    }
    assert(second.take(n as int) =~= second);
    out
}

impl<T: NoSql> Update<T> {
    /// The session statement: the SET binds, then the WHERE binds, as the text
    /// places their markers.
    pub fn session_statement(self) -> (r: ScyllaQuery)
        ensures
            r.query_string@ == self.spec_query(),
            row_model(r.binds@) == self.spec_set_binds() + self.spec_where_binds(),
    {
        let (where_binds, set_binds, query_string) = self.into_parts();
        ScyllaQuery { query_string, binds: concat_binds(set_binds, where_binds) }
    }

    /// The gateway statement: keyspace, query text, and the SET and WHERE binds
    /// by name.
    pub fn proxy_statement(self) -> (r: AstrStatement)
        ensures
            r.query_str@ == self.spec_query(),
            row_model(r.binds@) == self.spec_set_binds() + self.spec_where_binds(),
            r.keyspace@ == T::spec_keyspace(),
    {
        let (where_binds, set_binds, query_str) = self.into_parts();
        AstrStatement::new(query_str, concat_binds(set_binds, where_binds), String::from_str(T::keyspace()))
    }
}

impl<T: NoSql> QueryInterface<SessionStore> for FindOne<T> {
    open spec fn output_of(query_output: Vec<CqlMap>, r: Option<T>) -> bool {
        r == decode_first::<T>(session_rows(query_output@))
    }

    open spec fn statement_of(&self, r: ScyllaQuery) -> bool {
        &&& r.query_string@ == self.spec_query()
        &&& row_model(r.binds@) == self.spec_binds()
    }

    fn into_output(query_output: Vec<CqlMap>) -> Option<T> {
        FindOne::<T>::session_output(query_output)
    }

    fn into_statement(self) -> ScyllaQuery {
        self.session_statement()
    }
}

impl<T: NoSql> QueryInterface<ProxyStore> for FindOne<T> {
    open spec fn output_of(query_output: ColumnRows, r: Option<T>) -> bool {
        r == decode_first::<T>(proxy_rows(query_output.columns@, query_output.rows@))
    }

    open spec fn statement_of(&self, r: AstrStatement) -> bool {
        &&& r.query_str@ == self.spec_query()
        &&& row_model(r.binds@) == self.spec_binds()
        &&& r.keyspace@ == T::spec_keyspace()
    }

    fn into_output(query_output: ColumnRows) -> Option<T> {
        FindOne::<T>::proxy_output(query_output)
    }

    fn into_statement(self) -> AstrStatement {
        self.proxy_statement()
    }
}

impl<T: NoSql> QueryInterface<SessionStore> for FindAll<T> {
    open spec fn output_of(query_output: Vec<CqlMap>, r: Option<Vec<T>>) -> bool {
        &&& (r is Some <==> decode_all::<T>(session_rows(query_output@)) is Some)
        &&& (r matches Some(v) ==> v@ == decode_all::<T>(session_rows(query_output@))->Some_0)
    }

    open spec fn statement_of(&self, r: ScyllaQuery) -> bool {
        &&& r.query_string@ == self.spec_query()
        &&& row_model(r.binds@) == self.spec_binds()
    }

    fn into_output(query_output: Vec<CqlMap>) -> Option<Vec<T>> {
        FindAll::<T>::session_output(query_output)
    }

    fn into_statement(self) -> ScyllaQuery {
        self.session_statement()
    }
}

impl<T: NoSql> QueryInterface<ProxyStore> for FindAll<T> {
    open spec fn output_of(query_output: ColumnRows, r: Option<Vec<T>>) -> bool {
        &&& (r is Some <==> decode_all::<T>(proxy_rows(query_output.columns@, query_output.rows@)) is Some)
        &&& (r matches Some(v) ==> v@ == decode_all::<T>(
            proxy_rows(query_output.columns@, query_output.rows@),
        )->Some_0)
    }

    open spec fn statement_of(&self, r: AstrStatement) -> bool {
        &&& r.query_str@ == self.spec_query()
        &&& row_model(r.binds@) == self.spec_binds()
        &&& r.keyspace@ == T::spec_keyspace()
    }

    fn into_output(query_output: ColumnRows) -> Option<Vec<T>> {
        FindAll::<T>::proxy_output(query_output)
    }

    fn into_statement(self) -> AstrStatement {
        self.proxy_statement()
    }
}

impl<T: NoSql> QueryInterface<SessionStore> for Create<T> {
    open spec fn output_of(query_output: Vec<CqlMap>, r: Option<bool>) -> bool {
        r == Some(true)
    }

    open spec fn statement_of(&self, r: ScyllaQuery) -> bool {
        &&& r.query_string@ == insert_text(T::spec_keyspace(), T::spec_table(), T::spec_fields())
        &&& self.model.encodes_as(CqlType::Row(r.binds))
        &&& row_keys(row_model(r.binds@)) == T::spec_fields()
    }

    fn into_output(query_output: Vec<CqlMap>) -> Option<bool> {
        Create::<T>::insert_output()
    }

    fn into_statement(self) -> ScyllaQuery {
        self.session_statement()
    }
}

impl<T: NoSql> QueryInterface<ProxyStore> for Create<T> {
    open spec fn output_of(query_output: ColumnRows, r: Option<bool>) -> bool {
        r == Some(true)
    }

    open spec fn statement_of(&self, r: AstrStatement) -> bool {
        &&& r.query_str@ == insert_text(T::spec_keyspace(), T::spec_table(), T::spec_fields())
        &&& self.model.encodes_as(CqlType::Row(r.binds))
        &&& row_keys(row_model(r.binds@)) == T::spec_fields()
        &&& r.keyspace@ == T::spec_keyspace()
    }

    fn into_output(query_output: ColumnRows) -> Option<bool> {
        Create::<T>::insert_output()
    }

    fn into_statement(self) -> AstrStatement {
        self.proxy_statement()
    }
}

} // verus!
