use vstd::prelude::*;
use std::marker::PhantomData;
use crate::filter::{where_text, FilterBy};
use crate::model::NoSql;
use crate::query::{
    select_limit_statement_text, select_limit_text, select_statement_text, select_text, set_text,
    update_statement_text, update_text, Create, FindAll, FindOne, Update,
};
use crate::text::push_joined;
use crate::value::{column_names, row_keys, row_model, unique_keys, CqlMap, RowModel};

verus! {

/// A stage of a builder.
pub trait State {}

/// Nothing but what the builder was made with has been supplied.
pub struct Init;

impl State for Init {}

/// A filter has been supplied; the query can be built.
pub struct Ready;

impl State for Ready {}

/// A row limit has been supplied instead of a filter.
pub struct Limit;

impl State for Limit {}

/// Insertion of records of this type.
pub trait Insertable: NoSql {
    fn create(self) -> (r: InsertBuilder<Self>)
        ensures
            r.model == self,
    {
        InsertBuilder { model: self }
    }
}

pub struct InsertBuilder<T: NoSql> {
    pub model: T,
}

impl<T: NoSql> InsertBuilder<T> {
    pub fn build(self) -> (r: Create<T>)
        ensures
            r.model == self.model,
    {
        Create::create_query(self.model)
    }
}

/// Selection of records of this type.
pub trait Selectable: NoSql {
    fn select() -> (r: SelectBuilder<Self, Init>)
        ensures
            r.spec_filter() is None,
    {
        SelectBuilder::default()
    }

    fn select_all() -> (r: SelectAllBuilder<Self, Init>)
        ensures
            r.spec_filter() is None,
            r.spec_limit() is None,
    {
        SelectAllBuilder::default()
    }
}

/// Builds a query for one record; it has `build` only once a filter is given.
pub struct SelectBuilder<T: NoSql, S: State> {
    wh_clause: Option<FilterBy<T>>,
    state: S,
    _model: PhantomData<T>,
}

impl<T: NoSql, S: State> SelectBuilder<T, S> {
    pub closed spec fn spec_filter(&self) -> Option<FilterBy<T>> {
        self.wh_clause
    }
}

impl<T: NoSql> SelectBuilder<T, Init> {
    pub fn default() -> (r: SelectBuilder<T, Init>)
        ensures
            r.spec_filter() is None,
    {
        SelectBuilder { wh_clause: None, state: Init, _model: PhantomData }
    }

    pub fn filter_by(self, filter: FilterBy<T>) -> (r: SelectBuilder<T, Ready>)
        ensures
            r.spec_filter() == Some(filter),
    {
        SelectBuilder { wh_clause: Some(filter), state: Ready, _model: self._model }
    }
}

impl<T: NoSql> SelectBuilder<T, Ready> {
    /// `SELECT * FROM <keyspace>.<table> WHERE <filter>`, with the filter's binds.
    pub fn build(self) -> (r: FindOne<T>)
        requires
            self.spec_filter() is Some,
        ensures
            r.spec_query() == select_text(
                T::spec_keyspace(),
                T::spec_table(),
                self.spec_filter()->Some_0.spec_query(),
            ),
            r.spec_binds() == self.spec_filter()->Some_0.spec_binds(),
            r.spec_query() == select_text(
                T::spec_keyspace(),
                T::spec_table(),
                where_text(row_keys(r.spec_binds())),
            ),
            r.spec_binds().len() > 0,
    {
        let filter = self.wh_clause.unwrap();
        let (binds, where_fragment) = filter.into_parts();
        let query_string = select_statement_text(T::keyspace(), T::table_name(), where_fragment.as_str());
        FindOne::create_query(binds, query_string)
    }
}

/// Builds a query for many records: either filtered, or limited in number.
pub struct SelectAllBuilder<T: NoSql, S: State> {
    wh_clause: Option<FilterBy<T>>,
    state: S,
    limit: Option<u64>,
    _model: PhantomData<T>,
}

impl<T: NoSql, S: State> SelectAllBuilder<T, S> {
    pub closed spec fn spec_filter(&self) -> Option<FilterBy<T>> {
        self.wh_clause
    }

    pub closed spec fn spec_limit(&self) -> Option<u64> {
        self.limit
    }
}

impl<T: NoSql> SelectAllBuilder<T, Init> {
    pub fn default() -> (r: SelectAllBuilder<T, Init>)
        ensures
            r.spec_filter() is None,
            r.spec_limit() is None,
    {
        SelectAllBuilder { wh_clause: None, state: Init, limit: None, _model: PhantomData }
    }

    /// Asks for at most `limit` records and no filter.
    pub fn limit(self, limit: u64) -> (r: SelectAllBuilder<T, Limit>)
        ensures
            r.spec_filter() is None,
            r.spec_limit() == Some(limit),
    {
        SelectAllBuilder { wh_clause: None, state: Limit, limit: Some(limit), _model: PhantomData }
    }

    pub fn filter_by(self, filter: FilterBy<T>) -> (r: SelectAllBuilder<T, Ready>)
        ensures
            r.spec_filter() == Some(filter),
            r.spec_limit() is None,
    {
        SelectAllBuilder { wh_clause: Some(filter), state: Ready, limit: None, _model: self._model }
    }
}

impl<T: NoSql> SelectAllBuilder<T, Ready> {
    /// `SELECT * FROM <keyspace>.<table> WHERE <filter>`, with the filter's binds.
    pub fn build(self) -> (r: FindAll<T>)
        requires
            self.spec_filter() is Some,
        ensures
            r.spec_query() == select_text(
                T::spec_keyspace(),
                T::spec_table(),
                self.spec_filter()->Some_0.spec_query(),
            ),
            r.spec_binds() == self.spec_filter()->Some_0.spec_binds(),
            r.spec_query() == select_text(
                T::spec_keyspace(),
                T::spec_table(),
                where_text(row_keys(r.spec_binds())),
            ),
            r.spec_binds().len() > 0,
    {
        let filter = self.wh_clause.unwrap();
        let (binds, where_fragment) = filter.into_parts();
        let query_string = select_statement_text(T::keyspace(), T::table_name(), where_fragment.as_str());
        FindAll::create_query(binds, query_string)
    }
}

impl<T: NoSql> SelectAllBuilder<T, Limit> {
    /// `SELECT * FROM <keyspace>.<table> LIMIT <n>`, with no binds.
    pub fn build(self) -> (r: FindAll<T>)
        requires
            self.spec_limit() is Some,
        ensures
            r.spec_query() == select_limit_text(
                T::spec_keyspace(),
                T::spec_table(),
                self.spec_limit()->Some_0 as nat,
            ),
            r.spec_binds() == Seq::<(Seq<char>, crate::value::CqlType)>::empty(),
    {
        let limit = self.limit.unwrap();
        let query_string = select_limit_statement_text(T::keyspace(), T::table_name(), limit);
        let binds: CqlMap = Vec::new();
        let r = FindAll::create_query(binds, query_string);
        assert(r.spec_binds() =~= Seq::<(Seq<char>, crate::value::CqlType)>::empty());
        r
    }
}

/// A partial record that updates records of `ParentModel`.
pub trait Updateable: Sized {
    type ParentModel: NoSql;

    /// The columns this change sets and their new values, in SET order.
    spec fn spec_set(&self) -> RowModel;

    /// The columns to set and their new values, in SET order.
    fn set_binds(self) -> (r: CqlMap)
        ensures
            row_model(r@) == self.spec_set(),
            r@.len() > 0,
            unique_keys(row_model(r@)),
    ;

    fn update(self) -> (r: UpdateBuilder<Self::ParentModel, Init>)
        ensures
            r.spec_filter() is None,
            r.spec_set_binds() == self.spec_set(),
            r.spec_set_binds().len() > 0,
            r.wf(),
    {
        UpdateBuilder::new(self.set_binds())
    }
}

/// Builds an update; the SET clause is given at the start, the filter later.
pub struct UpdateBuilder<T: NoSql, S: State> {
    set_binds: CqlMap,
    set_fragment: String,
    wh_clause: Option<FilterBy<T>>,
    state: S,
    _model: PhantomData<T>,
}

impl<T: NoSql, S: State> UpdateBuilder<T, S> {
    pub closed spec fn spec_filter(&self) -> Option<FilterBy<T>> {
        self.wh_clause
    }

    pub closed spec fn spec_set_binds(&self) -> RowModel {
        row_model(self.set_binds@)
    }

    pub closed spec fn wf(&self) -> bool {
        self.set_fragment@ == set_text(row_keys(row_model(self.set_binds@)))
    }
}

impl<T: NoSql> UpdateBuilder<T, Init> {
    /// Starts an update that sets the columns of `set_binds`.
    pub fn new(set_binds: CqlMap) -> (r: UpdateBuilder<T, Init>)
        requires
            set_binds@.len() > 0,
            unique_keys(row_model(set_binds@)),
        ensures
            r.spec_filter() is None,
            r.spec_set_binds() == row_model(set_binds@),
            r.wf(),
    {
        let names = column_names(&set_binds);
        let mut set_fragment = String::new();
        push_joined(&mut set_fragment, &names, " = ?", ", ");
        assert(set_fragment@ =~= set_text(row_keys(row_model(set_binds@))));
        UpdateBuilder { set_binds, set_fragment, wh_clause: None, state: Init, _model: PhantomData }
    }

    pub fn filter_by(self, filter: FilterBy<T>) -> (r: UpdateBuilder<T, Ready>)
        ensures
            r.spec_filter() == Some(filter),
            r.spec_set_binds() == self.spec_set_binds(),
            self.wf() ==> r.wf(),
    {
        UpdateBuilder {
            set_binds: self.set_binds,
            set_fragment: self.set_fragment,
            wh_clause: Some(filter),
            state: Ready,
            _model: self._model,
        }
    }
}

impl<T: NoSql> UpdateBuilder<T, Ready> {
    /// `UPDATE <keyspace>.<table> SET <c> = ?, ... WHERE <filter>`, with the SET
    /// binds and the filter's binds kept apart.
    pub fn build(self) -> (r: Update<T>)
        requires
            self.spec_filter() is Some,
            self.wf(),
        ensures
            r.spec_query() == update_text(
                T::spec_keyspace(),
                T::spec_table(),
                set_text(row_keys(self.spec_set_binds())),
                self.spec_filter()->Some_0.spec_query(),
            ),
            r.spec_where_binds() == self.spec_filter()->Some_0.spec_binds(),
            r.spec_set_binds() == self.spec_set_binds(),
            r.spec_query() == update_text(
                T::spec_keyspace(),
                T::spec_table(),
                set_text(row_keys(r.spec_set_binds())),
                where_text(row_keys(r.spec_where_binds())),
            ),
            r.spec_where_binds().len() > 0,
    {
        let filter = self.wh_clause.unwrap();
        let (where_binds, where_fragment) = filter.into_parts();
        let query_string = update_statement_text(
            T::keyspace(),
            T::table_name(),
            self.set_fragment.as_str(),
            where_fragment.as_str(),
        );
        Update::create_query(where_binds, self.set_binds, query_string)
    }
}

} // verus!
