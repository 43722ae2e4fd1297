use vstd::prelude::*;
use vstd::string::*;
use std::marker::PhantomData;
use crate::model::NoSql;
use crate::text::{join, lemma_views_push, push_joined, suffixed, views};
use crate::value::{column_names, lemma_row_model_push, row_keys, row_model, unique_keys, zip_model, CqlMap, CqlType, RowModel};

verus! {

/// `<k1> = ? AND <k2> = ? ...` over `keys` in their order; a single key has no
/// conjunction.
pub open spec fn where_text(keys: Seq<Seq<char>>) -> Seq<char> {
    join(suffixed(keys, " = ?"@), " AND "@)
}

/// A WHERE fragment over at least one column is never empty, so a query built
/// from a filter always carries a condition.
pub proof fn where_text_nonempty(keys: Seq<Seq<char>>)
    requires
        keys.len() > 0,
    ensures
        where_text(keys).len() > 0,
{
    reveal_strlit(" = ?");
    let parts = suffixed(keys, " = ?"@);
    assert(parts.last() == keys.last() + " = ?"@);
    assert(parts.last().len() > 0);
}

/// The key columns that a filter on `n` values binds: the partition key, then
/// as many clustering keys as remain.
pub open spec fn filter_keys<T: NoSql>(n: nat) -> Seq<Seq<char>> {
    (T::spec_partition_keys() + T::spec_clustering_keys()).take(n as int)
}

/// Why a key filter could not be built.
#[derive(Debug, Clone, Copy, PartialEq, Eq, Structural)]
pub enum FilterError {
    /// The values do not cover the partition key, or exceed the key.
    WrongKeyCount,
}

/// Bind values for key columns with the WHERE fragment that names them, tied
/// to the record type `T`: a builder for another type does not accept it.
pub struct FilterBy<T> {
    filter: CqlMap,
    query_string: String,
    _model: PhantomData<T>,
}

impl<T> FilterBy<T> {
    /// At least one column is bound, and the WHERE text names exactly the
    /// bound columns, in their order.
    #[verifier::type_invariant]
    spec fn aligned(&self) -> bool {
        &&& self.filter@.len() > 0
        &&& self.query_string@ == where_text(row_keys(row_model(self.filter@)))
    }

    /// The bound columns and values, in the order the WHERE text names them.
    pub closed spec fn spec_binds(&self) -> RowModel {
        row_model(self.filter@)
    }

    /// The WHERE fragment, without the `WHERE` keyword.
    pub closed spec fn spec_query(&self) -> Seq<char> {
        self.query_string@
    }

    /// A filter on the columns of `filter`, in their order.
    pub fn new(filter: CqlMap) -> (r: FilterBy<T>)
        requires
            filter@.len() > 0,
            unique_keys(row_model(filter@)),
        ensures
            r.spec_binds() == row_model(filter@),
            r.spec_query() == where_text(row_keys(row_model(filter@))),
    {
        let names = column_names(&filter);
        let mut query_string = String::new();
        push_joined(&mut query_string, &names, " = ?", " AND ");
        assert(query_string@ =~= where_text(row_keys(row_model(filter@))));
        FilterBy { filter, query_string, _model: PhantomData }
    }

    pub fn query_string(&self) -> (r: &String)
        ensures
            r@ == self.spec_query(),
    {
        &self.query_string
    }

    pub fn binds(&self) -> (r: &CqlMap)
        ensures
            row_model(r@) == self.spec_binds(),
            r@.len() > 0,
    {
        proof {
            use_type_invariant(self);
        }
        &self.filter
    }

    /// The binds and the WHERE fragment that names them.
    pub fn into_parts(self) -> (r: (CqlMap, String))
        ensures
            row_model(r.0@) == self.spec_binds(),
            r.1@ == self.spec_query(),
            r.1@ == where_text(row_keys(row_model(r.0@))),
            r.0@.len() > 0,
    {
        proof {
            use_type_invariant(&self);
        }
        (self.filter, self.query_string)
    }
}

impl<T: NoSql> FilterBy<T> {
    /// A filter that binds `values` to the partition key columns followed by
    /// the leading clustering key columns, in declaration order.
    ///
    /// It is built exactly when the values cover the whole partition key and
    /// no more than the whole key.
    pub fn by_keys(values: Vec<CqlType>) -> (r: Result<FilterBy<T>, FilterError>)
        ensures
            r is Ok <==> T::spec_partition_keys().len() <= values@.len()
                <= T::spec_partition_keys().len() + T::spec_clustering_keys().len(),
            r matches Ok(f) ==> f.spec_binds() == zip_model(filter_keys::<T>(values@.len()), values@)
                && f.spec_query() == where_text(filter_keys::<T>(values@.len())),
    {
        let partition = T::partition_keys();
        let clustering = T::clustering_keys();
        let n = values.len();
        if n < partition.len() || n - partition.len() > clustering.len() {
            return Err(FilterError::WrongKeyCount);
        }
        proof {
            T::lemma_identity();
        }
        let ghost all = T::spec_partition_keys() + T::spec_clustering_keys();
        let ghost vals = values@;
        let mut names: Vec<String> = Vec::new();
        let mut filter: CqlMap = Vec::new();
        let mut rest = values;
        let mut i: usize = 0;
        while i < n
            invariant
                n == vals.len(),
                n <= all.len(),
                all == T::spec_partition_keys() + T::spec_clustering_keys(),
                views(partition@) == T::spec_partition_keys(),
                views(clustering@) == T::spec_clustering_keys(),
                i <= n,
                rest@ == vals.skip(i as int),
                views(names@) == all.take(i as int),
                row_model(filter@) == zip_model(all.take(i as int), vals.take(i as int)),
            decreases n - i,
        {
            let name = if i < partition.len() {
                partition[i].clone()
            } else {
                clustering[i - partition.len()].clone()
            };
            assert(name@ == all[i as int]);
            let v = rest.remove(0);
            proof {
                assert(vals.skip(i as int).remove(0) =~= vals.skip(i + 1));
            }
            let copy = name.clone();
            proof {
                lemma_views_push(names@, copy);
                lemma_row_model_push(filter@, (name, v));
            }
            names.push(copy);
            filter.push((name, v));
            i = i + 1;
            assert(views(names@) =~= all.take(i as int));
            assert(row_model(filter@) =~= zip_model(all.take(i as int), vals.take(i as int)));
        }
        assert(vals.take(n as int) =~= vals);
        assert(row_keys(row_model(filter@)) =~= all.take(n as int));
        let mut query_string = String::new();
        push_joined(&mut query_string, &names, " = ?", " AND ");
        Ok(FilterBy { filter, query_string, _model: PhantomData })
    }
}

} // verus!
