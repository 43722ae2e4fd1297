use vstd::prelude::*;
use vstd::string::*;
use std::marker::PhantomData;
use crate::model::NoSql;
use crate::text::{decimal, join, push_decimal, suffixed};
use crate::value::{row_model, CqlMap, RowModel};

verus! {

/// `SELECT * FROM <keyspace>.<table> WHERE <where_fragment>`
pub open spec fn select_text(keyspace: Seq<char>, table: Seq<char>, where_fragment: Seq<char>) -> Seq<char> {
    "SELECT * FROM "@ + keyspace + "."@ + table + " WHERE "@ + where_fragment
}

/// `SELECT * FROM <keyspace>.<table> LIMIT <limit>`
pub open spec fn select_limit_text(keyspace: Seq<char>, table: Seq<char>, limit: nat) -> Seq<char> {
    "SELECT * FROM "@ + keyspace + "."@ + table + " LIMIT "@ + decimal(limit)
}

/// `UPDATE <keyspace>.<table> SET <set_fragment> WHERE <where_fragment>`
pub open spec fn update_text(
    keyspace: Seq<char>,
    table: Seq<char>,
    set_fragment: Seq<char>,
    where_fragment: Seq<char>,
) -> Seq<char> {
    "UPDATE "@ + keyspace + "."@ + table + " SET "@ + set_fragment + " WHERE "@ + where_fragment
}

/// `<c1> = ?, <c2> = ? ...` over the updated columns in their order.
pub open spec fn set_text(columns: Seq<Seq<char>>) -> Seq<char> {
    join(suffixed(columns, " = ?"@), ", "@)
}

pub fn select_statement_text(keyspace: &str, table: &str, where_fragment: &str) -> (r: String)
    ensures
        r@ == select_text(keyspace@, table@, where_fragment@),
{
    let mut out = String::from_str("SELECT * FROM ");
    out.append(keyspace);
    out.append(".");
    out.append(table);
    out.append(" WHERE ");
    out.append(where_fragment);
    out
}

pub fn select_limit_statement_text(keyspace: &str, table: &str, limit: u64) -> (r: String)
    ensures
        r@ == select_limit_text(keyspace@, table@, limit as nat),
{
    let mut out = String::from_str("SELECT * FROM ");
    out.append(keyspace);
    out.append(".");
    out.append(table);
    out.append(" LIMIT ");
    push_decimal(&mut out, limit);
    out
}

pub fn update_statement_text(keyspace: &str, table: &str, set_fragment: &str, where_fragment: &str) -> (r: String)
    ensures
        r@ == update_text(keyspace@, table@, set_fragment@, where_fragment@),
{
    let mut out = String::from_str("UPDATE ");
    out.append(keyspace);
    out.append(".");
    out.append(table);
    out.append(" SET ");
    out.append(set_fragment);
    out.append(" WHERE ");
    out.append(where_fragment);
    out
}

/// The typed result that executing a query object yields.
pub trait QueryResultType {
    type Output;
}

/// Why executing a query object failed.
#[derive(Debug, Clone, Copy, PartialEq, Eq, Structural)]
pub enum QueryError {
    /// No response was obtained from the transport.
    Execution,
    /// A response came but could not be decoded into the expected result.
    Decode,
}

/// A query for the first record matching a filter.
pub struct FindOne<T: NoSql> {
    binds: CqlMap,
    query: String,
    _model: PhantomData<T>,
}

impl<T: NoSql> FindOne<T> {
    pub closed spec fn spec_binds(&self) -> RowModel {
        row_model(self.binds@)
    }

    pub closed spec fn spec_query(&self) -> Seq<char> {
        self.query@
    }

    pub fn create_query(binds: CqlMap, query: String) -> (r: FindOne<T>)
        ensures
            r.spec_binds() == row_model(binds@),
            r.spec_query() == query@,
    {
        FindOne { binds, query, _model: PhantomData }
    }

    pub fn query(&self) -> (r: &String)
        ensures
            r@ == self.spec_query(),
    {
        &self.query
    }

    pub fn binds(&self) -> (r: &CqlMap)
        ensures
            row_model(r@) == self.spec_binds(),
    {
        &self.binds
    }

    pub fn into_parts(self) -> (r: (CqlMap, String))
        ensures
            row_model(r.0@) == self.spec_binds(),
            r.1@ == self.spec_query(),
    {
        (self.binds, self.query)
    }
}

impl<T: NoSql> QueryResultType for FindOne<T> {
    type Output = T;
}

/// A query for every record matching a filter, or for the first few records.
pub struct FindAll<T: NoSql> {
    binds: CqlMap,
    query: String,
    _model: PhantomData<T>,
}

impl<T: NoSql> FindAll<T> {
    pub closed spec fn spec_binds(&self) -> RowModel {
        row_model(self.binds@)
    }

    pub closed spec fn spec_query(&self) -> Seq<char> {
        self.query@
    }

    pub fn create_query(binds: CqlMap, query: String) -> (r: FindAll<T>)
        ensures
            r.spec_binds() == row_model(binds@),
            r.spec_query() == query@,
    {
        FindAll { binds, query, _model: PhantomData }
    }

    pub fn query(&self) -> (r: &String)
        ensures
            r@ == self.spec_query(),
    {
        &self.query
    }

    pub fn binds(&self) -> (r: &CqlMap)
        ensures
            row_model(r@) == self.spec_binds(),
    {
        &self.binds
    }

    pub fn into_parts(self) -> (r: (CqlMap, String))
        ensures
            row_model(r.0@) == self.spec_binds(),
            r.1@ == self.spec_query(),
    {
        (self.binds, self.query)
    }
}

impl<T: NoSql> QueryResultType for FindAll<T> {
    type Output = Vec<T>;
}

/// A query that sets columns of the records matching a filter.
pub struct Update<T: NoSql> {
    where_binds: CqlMap,
    set_binds: CqlMap,
    query: String,
    _model: PhantomData<T>,
}

impl<T: NoSql> Update<T> {
    pub closed spec fn spec_where_binds(&self) -> RowModel {
        row_model(self.where_binds@)
    }

    pub closed spec fn spec_set_binds(&self) -> RowModel {
        row_model(self.set_binds@)
    }

    pub closed spec fn spec_query(&self) -> Seq<char> {
        self.query@
    }

    pub fn create_query(where_binds: CqlMap, set_binds: CqlMap, query: String) -> (r: Update<T>)
        ensures
            r.spec_where_binds() == row_model(where_binds@),
            r.spec_set_binds() == row_model(set_binds@),
            r.spec_query() == query@,
    {
        Update { where_binds, set_binds, query, _model: PhantomData }
    }

    pub fn query(&self) -> (r: &String)
        ensures
            r@ == self.spec_query(),
    {
        &self.query
    }

    pub fn where_binds(&self) -> (r: &CqlMap)
        ensures
            row_model(r@) == self.spec_where_binds(),
    {
        &self.where_binds
    }

    pub fn set_binds(&self) -> (r: &CqlMap)
        ensures
            row_model(r@) == self.spec_set_binds(),
    {
        &self.set_binds
    }

    pub fn into_parts(self) -> (r: (CqlMap, CqlMap, String))
        ensures
            row_model(r.0@) == self.spec_where_binds(),
            row_model(r.1@) == self.spec_set_binds(),
            r.2@ == self.spec_query(),
    {
        (self.where_binds, self.set_binds, self.query)
    }
}

impl<T: NoSql> QueryResultType for Update<T> {
    type Output = usize;
}

/// A query that inserts one record.
pub struct Create<T: NoSql> {
    pub model: T,
}

impl<T: NoSql> Create<T> {
    pub fn create_query(model: T) -> (r: Create<T>)
        ensures
            r.model == model,
    {
        Create { model }
    }
}

impl<T: NoSql> QueryResultType for Create<T> {
    type Output = bool;
}

} // verus!
