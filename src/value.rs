use vstd::prelude::*;
use crate::text::{lemma_views_push, views};

verus! {

/// A value that the wire protocol can carry.
///
/// `NumFloat` holds the IEEE-754 binary64 bit pattern of a double; a `Row`
/// is a record, an ordered list of (column name, value) pairs whose names are
/// unique.
#[derive(Debug, PartialEq)]
pub enum CqlType {
    Str(String),
    Bool(bool),
    Row(CqlMap),
    NumInt(i64),
    NumFloat(u64),
    Timestamp(i64),
    Bytes(Vec<u8>),
    Null,
}

/// A record: column names paired with their values.
pub type CqlMap = Vec<(String, CqlType)>;

/// A SET or WHERE fragment together with the binds it names, in text order.
pub type CqlMapWithQuery = (String, CqlMap);

/// The model of a record: names as character sequences, values as they are.
pub type RowModel = Seq<(Seq<char>, CqlType)>;

pub open spec fn row_model(m: Seq<(String, CqlType)>) -> RowModel {
    m.map_values(|e: (String, CqlType)| (e.0@, e.1))
}

pub open spec fn row_keys(m: RowModel) -> Seq<Seq<char>> {
    m.map_values(|e: (Seq<char>, CqlType)| e.0)
}

pub open spec fn unique_keys(m: RowModel) -> bool {
    row_keys(m).no_duplicates()
}

/// The value stored under `k`: the first pair with that name, if any.
pub open spec fn lookup(m: RowModel, k: Seq<char>) -> Option<CqlType>
    decreases m.len(),
{
    if m.len() == 0 {
        None
    } else if m[0].0 == k {
        Some(m[0].1)
    } else {
        lookup(m.drop_first(), k)
    }
}

/// Two rows that answer every name alike hold the same logical record.
pub open spec fn same_lookups(a: RowModel, b: RowModel) -> bool {
    forall|k: Seq<char>| #[trigger] lookup(a, k) == lookup(b, k)
}

/// The names of `m` paired with `vals`, position by position.
pub open spec fn zip_model(names: Seq<Seq<char>>, vals: Seq<CqlType>) -> RowModel {
    Seq::new(
        if names.len() <= vals.len() { names.len() } else { vals.len() },
        |i: int| (names[i], vals[i]),
    )
}

pub proof fn lemma_row_model_push(m: Seq<(String, CqlType)>, e: (String, CqlType))
    ensures
        row_model(m.push(e)) == row_model(m).push((e.0@, e.1)),
{
    assert(row_model(m.push(e)) =~= row_model(m).push((e.0@, e.1)));
}

pub proof fn lemma_lookup_skip(m: RowModel, k: Seq<char>, i: int)
    requires
        0 <= i < m.len(),
        m[i].0 != k,
    ensures
        lookup(m.skip(i), k) == lookup(m.skip(i + 1), k),
{
    assert(m.skip(i).drop_first() =~= m.skip(i + 1));
}

/// The column names of a record, in order.
pub fn column_names(m: &CqlMap) -> (r: Vec<String>)
    ensures
        views(r@) == row_keys(row_model(m@)),
{
    let mut names: Vec<String> = Vec::new();
    let mut i: usize = 0;
    while i < m.len()
        invariant
            i <= m@.len(),
            views(names@) =~= row_keys(row_model(m@)).take(i as int),
        decreases m@.len() - i,
    {
        let name = m[i].0.clone();
        proof {
            lemma_views_push(names@, name);
        }
        names.push(name);
        i = i + 1;
    }
    names
}

/// Looks up the value stored under `k` in a record.
pub fn map_get<'a>(m: &'a CqlMap, k: &String) -> (r: Option<&'a CqlType>)
    ensures
        match r {
            Some(v) => lookup(row_model(m@), k@) == Some(*v),
            None => lookup(row_model(m@), k@) is None,
        },
{
    let ghost model = row_model(m@);
    let mut i: usize = 0;
    assert(model.skip(0) =~= model);
    while i < m.len()
        invariant
            i <= m@.len(),
            model == row_model(m@),
            lookup(model, k@) == lookup(model.skip(i as int), k@),
        decreases m@.len() - i,
    {
        if m[i].0 == *k {
            return Some(&m[i].1);
        }
        proof {
            lemma_lookup_skip(model, k@, i as int);
        }
        i = i + 1;
    }
    assert(model.skip(i as int).len() == 0);
    None
}

} // verus!
