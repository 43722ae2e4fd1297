use vstd::prelude::*;
use std::marker::PhantomData;
use crate::model::NoSql;
use crate::query::QueryResultType;
use crate::query_builder::{
    comparison_text, And, CassandraQuery, Gt, Gte, Limit, Lt, Lte, Or, QueryBuilder, WhereClause,
};
use crate::text::decimal;
use crate::value::{row_model, CqlMap, RowModel};

verus! {

/// `SELECT * FROM <keyspace>.<table> `
pub open spec fn select_head(keyspace: Seq<char>, table: Seq<char>) -> Seq<char> {
    "SELECT * FROM "@ + keyspace + "."@ + table + " "@
}

/// Starts a select whose conditions are written out one by one.
pub struct SelectBuilder<T: NoSql> {
    table: String,
    keyspace: String,
    fields: CqlMap,
    _phantom: PhantomData<T>,
}

impl<T: NoSql> SelectBuilder<T> {
    pub closed spec fn spec_binds(&self) -> RowModel {
        row_model(self.fields@)
    }

    pub closed spec fn wf(&self) -> bool {
        self.table@ == T::spec_table() && self.keyspace@ == T::spec_keyspace()
    }

    /// A select on `T`'s table with the binds `fields`.
    pub fn new(fields: CqlMap) -> (r: SelectBuilder<T>)
        ensures
            r.wf(),
            r.spec_binds() == row_model(fields@),
    {
        SelectBuilder {
            table: String::from_str(T::table_name()),
            keyspace: String::from_str(T::keyspace()),
            fields,
            _phantom: PhantomData,
        }
    }

    /// Goes on to the conditions: `SELECT * FROM <keyspace>.<table> WHERE `.
    pub fn wh(self) -> (r: SelectClause<T>)
        requires
            self.wf(),
        ensures
            r.spec_query() == select_head(T::spec_keyspace(), T::spec_table()) + "WHERE "@,
            r.spec_binds() == self.spec_binds(),
    {
        let mut query = CassandraQuery::new();
        self.walk_ast(&mut query);
        SelectClause::new(query, self.fields)
    }

    /// The select without conditions.
    pub fn build(self) -> (r: SelectQuery<T>)
        requires
            self.wf(),
        ensures
            r.spec_query() == select_head(T::spec_keyspace(), T::spec_table()),
            r.spec_binds() == self.spec_binds(),
    {
        let mut query = CassandraQuery::new();
        self.walk_ast(&mut query);
        assert(query@ =~= select_head(T::spec_keyspace(), T::spec_table()));
        SelectQuery { query, fields: self.fields, _phantom: PhantomData }
    }
}

impl<T: NoSql> QueryBuilder for SelectBuilder<T> {
    closed spec fn cql(&self) -> Seq<char> {
        select_head(self.keyspace@, self.table@)
    }

    fn walk_ast(&self, query: &mut CassandraQuery) {
        query.push_cql("SELECT * FROM ");
        query.push_cql(self.keyspace.as_str());
        query.push_cql(".");
        query.push_cql(self.table.as_str());
        query.push_cql(" ");
        assert(final(query)@ =~= old(query)@ + select_head(self.keyspace@, self.table@));
    }
}

/// The conditions of a select, written in order.
pub struct SelectClause<T> {
    query: CassandraQuery,
    fields: CqlMap,
    _phantom: PhantomData<T>,
}

impl<T> SelectClause<T> {
    pub closed spec fn spec_query(&self) -> Seq<char> {
        self.query@
    }

    pub closed spec fn spec_binds(&self) -> RowModel {
        row_model(self.fields@)
    }

    fn new(query: CassandraQuery, fields: CqlMap) -> (r: SelectClause<T>)
        ensures
            r.spec_query() == query@ + "WHERE "@,
            r.spec_binds() == row_model(fields@),
    {
        let mut query = query;
        WhereClause.walk_ast(&mut query);
        SelectClause { query, fields, _phantom: PhantomData }
    }

    /// Appends `<source> = ? `.
    pub fn eq(self, source: String) -> (r: SelectClause<T>)
        ensures
            r.spec_query() == self.spec_query() + comparison_text(source@, "="@),
            r.spec_binds() == self.spec_binds(),
    {
        let mut query = self.query;
        crate::query_builder::Eq { source }.walk_ast(&mut query);
        SelectClause { query, fields: self.fields, _phantom: PhantomData }
    }

    /// Appends `<source> > ? `.
    pub fn gt(self, source: String) -> (r: SelectClause<T>)
        ensures
            r.spec_query() == self.spec_query() + comparison_text(source@, ">"@),
            r.spec_binds() == self.spec_binds(),
    {
        let mut query = self.query;
        Gt { source }.walk_ast(&mut query);
        SelectClause { query, fields: self.fields, _phantom: PhantomData }
    }

    /// Appends `<source> >= ? `.
    pub fn gte(self, source: String) -> (r: SelectClause<T>)
        ensures
            r.spec_query() == self.spec_query() + comparison_text(source@, ">="@),
            r.spec_binds() == self.spec_binds(),
    {
        let mut query = self.query;
        Gte { source }.walk_ast(&mut query);
        SelectClause { query, fields: self.fields, _phantom: PhantomData }
    }

    /// Appends `<source> < ? `.
    pub fn lt(self, source: String) -> (r: SelectClause<T>)
        ensures
            r.spec_query() == self.spec_query() + comparison_text(source@, "<"@),
            r.spec_binds() == self.spec_binds(),
    {
        let mut query = self.query;
        Lt { source }.walk_ast(&mut query);
        SelectClause { query, fields: self.fields, _phantom: PhantomData }
    }

    /// Appends `<source> <= ? `.
    pub fn lte(self, source: String) -> (r: SelectClause<T>)
        ensures
            r.spec_query() == self.spec_query() + comparison_text(source@, "<="@),
            r.spec_binds() == self.spec_binds(),
    {
        let mut query = self.query;
        Lte { source }.walk_ast(&mut query);
        SelectClause { query, fields: self.fields, _phantom: PhantomData }
    }

    /// Appends `AND `.
    pub fn and(self) -> (r: SelectClause<T>)
        ensures
            r.spec_query() == self.spec_query() + "AND "@,
            r.spec_binds() == self.spec_binds(),
    {
        let mut query = self.query;
        And.walk_ast(&mut query);
        SelectClause { query, fields: self.fields, _phantom: PhantomData }
    }

    /// Appends `OR `.
    pub fn or(self) -> (r: SelectClause<T>)
        ensures
            r.spec_query() == self.spec_query() + "OR "@,
            r.spec_binds() == self.spec_binds(),
    {
        let mut query = self.query;
        Or.walk_ast(&mut query);
        SelectClause { query, fields: self.fields, _phantom: PhantomData }
    }

    /// Appends `LIMIT <limit> ` and ends the select.
    pub fn limit(self, limit: u32) -> (r: SelectQuery<T>)
        ensures
            r.spec_query() == self.spec_query() + "LIMIT "@ + decimal(limit as nat) + " "@,
            r.spec_binds() == self.spec_binds(),
    {
        let mut query = self.query;
        Limit::new(limit).walk_ast(&mut query);
        assert(query@ =~= self.spec_query() + "LIMIT "@ + decimal(limit as nat) + " "@);
        SelectQuery { query, fields: self.fields, _phantom: PhantomData }
    }

    /// Ends the select with the conditions written so far.
    pub fn build(self) -> (r: SelectQuery<T>)
        ensures
            r.spec_query() == self.spec_query(),
            r.spec_binds() == self.spec_binds(),
    {
        SelectQuery { query: self.query, fields: self.fields, _phantom: PhantomData }
    }
}

/// A finished select: its text and its binds.
pub struct SelectQuery<T> {
    query: CassandraQuery,
    fields: CqlMap,
    _phantom: PhantomData<T>,
}

impl<T> SelectQuery<T> {
    pub closed spec fn spec_query(&self) -> Seq<char> {
        self.query@
    }

    pub closed spec fn spec_binds(&self) -> RowModel {
        row_model(self.fields@)
    }

    pub fn query(&self) -> (r: String)
        ensures
            r@ == self.spec_query(),
    {
        self.query.query()
    }

    pub fn binds(&self) -> (r: &CqlMap)
        ensures
            row_model(r@) == self.spec_binds(),
    {
        &self.fields
    }
}

impl<T: NoSql> QueryResultType for SelectQuery<T> {
    type Output = T;
}

} // verus!
