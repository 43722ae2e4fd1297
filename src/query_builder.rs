use vstd::prelude::*;
use vstd::string::*;
use crate::text::{decimal, push_decimal};

verus! {

/// Query text under construction.
pub struct CassandraQuery {
    query: String,
}

impl View for CassandraQuery {
    type V = Seq<char>;

    closed spec fn view(&self) -> Seq<char> {
        self.query@
    }
}

impl CassandraQuery {
    pub fn new() -> (r: CassandraQuery)
        ensures
            r@ == Seq::<char>::empty(),
    {
        CassandraQuery { query: String::new() }
    }

    pub fn push_cql(&mut self, cql: &str)
        ensures
            final(self)@ == old(self)@ + cql@,
    {
        self.query.append(cql);
    }

    pub fn push_decimal(&mut self, n: u64)
        ensures
            final(self)@ == old(self)@ + decimal(n as nat),
    {
        push_decimal(&mut self.query, n);
    }

    pub fn query(&self) -> (r: String)
        ensures
            r@ == self@,
    {
        self.query.clone()
    }
}

/// A piece of query text that appends itself to a query.
pub trait QueryBuilder {
    spec fn cql(&self) -> Seq<char>;

    fn walk_ast(&self, query: &mut CassandraQuery)
        ensures
            final(query)@ == old(query)@ + self.cql(),
    ;
}

/// `AND `
pub struct And;

/// `OR `
pub struct Or;

/// `WHERE `
pub struct WhereClause;

impl QueryBuilder for And {
    open spec fn cql(&self) -> Seq<char> {
        "AND "@
    }

    fn walk_ast(&self, query: &mut CassandraQuery) {
        query.push_cql("AND ");
    }
}

impl QueryBuilder for Or {
    open spec fn cql(&self) -> Seq<char> {
        "OR "@
    }

    fn walk_ast(&self, query: &mut CassandraQuery) {
        query.push_cql("OR ");
    }
}

impl QueryBuilder for WhereClause {
    open spec fn cql(&self) -> Seq<char> {
        "WHERE "@
    }

    fn walk_ast(&self, query: &mut CassandraQuery) {
        query.push_cql("WHERE ");
    }
}

/// `<source> <op> ? `
pub open spec fn comparison_text(source: Seq<char>, op: Seq<char>) -> Seq<char> {
    source + " "@ + op + " ? "@
}

fn push_comparison(query: &mut CassandraQuery, source: &String, op: &str)
    ensures
        final(query)@ == old(query)@ + comparison_text(source@, op@),
{
    query.push_cql(source.as_str());
    query.push_cql(" ");
    query.push_cql(op);
    query.push_cql(" ? ");
    assert(final(query)@ =~= old(query)@ + comparison_text(source@, op@));
}

/// `<source> = ? `
pub struct Eq {
    pub source: String,
}

/// `<source> > ? `
pub struct Gt {
    pub source: String,
}

/// `<source> >= ? `
pub struct Gte {
    pub source: String,
}

/// `<source> < ? `
pub struct Lt {
    pub source: String,
}

/// `<source> <= ? `
pub struct Lte {
    pub source: String,
}

impl QueryBuilder for Eq {
    open spec fn cql(&self) -> Seq<char> {
        comparison_text(self.source@, "="@)
    }

    fn walk_ast(&self, query: &mut CassandraQuery) {
        push_comparison(query, &self.source, "=");
    }
}

impl QueryBuilder for Gt {
    open spec fn cql(&self) -> Seq<char> {
        comparison_text(self.source@, ">"@)
    }

    fn walk_ast(&self, query: &mut CassandraQuery) {
        push_comparison(query, &self.source, ">");
    }
}

impl QueryBuilder for Gte {
    open spec fn cql(&self) -> Seq<char> {
        comparison_text(self.source@, ">="@)
    }

    fn walk_ast(&self, query: &mut CassandraQuery) {
        push_comparison(query, &self.source, ">=");
    }
}

impl QueryBuilder for Lt {
    open spec fn cql(&self) -> Seq<char> {
        comparison_text(self.source@, "<"@)
    }

    fn walk_ast(&self, query: &mut CassandraQuery) {
        push_comparison(query, &self.source, "<");
    }
}

impl QueryBuilder for Lte {
    open spec fn cql(&self) -> Seq<char> {
        comparison_text(self.source@, "<="@)
    }

    fn walk_ast(&self, query: &mut CassandraQuery) {
        push_comparison(query, &self.source, "<=");
    }
}

/// `LIMIT <n> `
pub struct Limit(pub u32);

impl Limit {
    pub fn new(l: u32) -> (r: Limit)
        ensures
            r.0 == l,
    {
        Limit(l)
    }
}

impl QueryBuilder for Limit {
    open spec fn cql(&self) -> Seq<char> {
        "LIMIT "@ + decimal(self.0 as nat) + " "@
    }

    fn walk_ast(&self, query: &mut CassandraQuery) {
        query.push_cql("LIMIT ");
        query.push_decimal(self.0 as u64);
        query.push_cql(" ");
        assert(final(query)@ =~= old(query)@ + self.cql());
    }
}

} // verus!
