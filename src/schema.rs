use vstd::prelude::*;
use crate::row::Row;
use crate::value::{Ty, Value};

verus! {

/// Ordered column declarations: a name and a declared type each.
#[derive(Debug, PartialEq, Eq)]
pub struct Schema {
    pub columns: Vec<(String, Ty)>,
}

/// Schema inference was asked for over a batch with no rows.
#[derive(Clone, Copy, Debug, PartialEq, Eq, Structural)]
pub struct EmptyBatch;

/// The columns that inference reads off `row`: each entry's name, typed by
/// the tag of its value, in the row's order.
pub open spec fn inferred_from(columns: Seq<(String, Ty)>, row: Row) -> bool {
    &&& columns.len() == row.entries@.len()
    &&& forall|i: int|
        0 <= i < columns.len() ==> {
            &&& #[trigger] columns[i].0@ == row.entries@[i].0@
            &&& columns[i].1 == row.entries@[i].1.tag()
        }
}

impl Schema {
    /// The declared name of column `c`.
    pub open spec fn name(self, c: int) -> Seq<char> {
        self.columns@[c].0@
    }

    /// The declared type of column `c`.
    pub open spec fn ty(self, c: int) -> Ty {
        self.columns@[c].1
    }

    /// The declared names, in order.
    pub open spec fn names(self) -> Seq<Seq<char>> {
        self.columns@.map_values(|p: (String, Ty)| p.0@)
    }

    /// No two columns share a name.
    pub open spec fn names_unique(self) -> bool {
        forall|i: int, j: int|
            0 <= i < j < self.columns@.len() ==> #[trigger] self.name(i) != #[trigger] self.name(
                j,
            )
    }

    /// A schema with no columns.
    pub fn new() -> (r: Schema)
        ensures
            r.columns@.len() == 0,
            r.names_unique(),
    {
        Schema { columns: Vec::new() }
    }

    /// The number of columns.
    pub fn len(&self) -> (r: usize)
        ensures
            r == self.columns@.len(),
    {
        self.columns.len()
    }

    /// Whether some column is named `name`.
    pub fn contains(&self, name: &String) -> (r: bool)
        ensures
            r == exists|c: int| 0 <= c < self.columns@.len() && self.name(c) == name@,
    {
        let mut i: usize = 0;
        while i < self.columns.len()
            invariant
                i <= self.columns@.len(),
                forall|c: int| 0 <= c < i ==> self.name(c) != name@,
            decreases self.columns@.len() - i,
        {
            if self.columns[i].0 == *name {
                assert(self.name(i as int) == name@);
                return true;
            }
            i = i + 1;
        }
        false
    }

    /// Declares a column after the existing ones. A name that is already
    /// declared is refused: the schema is left as it was and `false` returned.
    pub fn add_column(&mut self, name: &str, ty: Ty) -> (r: bool)
        requires
            old(self).names_unique(),
        ensures
            final(self).names_unique(),
            r == !(exists|c: int| 0 <= c < old(self).columns@.len() && old(self).name(c) == name@),
            r ==> final(self).columns@.len() == old(self).columns@.len() + 1
                && final(self).columns@.drop_last() == old(self).columns@
                && final(self).name(old(self).columns@.len() as int) == name@
                && final(self).ty(old(self).columns@.len() as int) == ty,
            !r ==> *final(self) == *old(self),
    {
        let key = name.to_owned();
        if self.contains(&key) {
            return false;
        }
        self.columns.push((key, ty));
        assert(self.columns@.drop_last() =~= old(self).columns@);
        assert forall|i: int, j: int| 0 <= i < j < self.columns@.len() implies #[trigger] self.name(
            i,
        ) != #[trigger] self.name(j) by {
            if j < old(self).columns@.len() {
                assert(old(self).name(i) != old(self).name(j));
            } else {
                assert(old(self).name(i) != name@);
            }
        }
        true
    }
}

/// The schema that the first row of a batch implies: its names in its order,
/// each typed by the tag of its value.
pub fn columns_of(row: &Row) -> (r: Schema)
    ensures
        inferred_from(r.columns@, *row),
{
    let mut columns: Vec<(String, Ty)> = Vec::new();
    let mut i: usize = 0;
    while i < row.entries.len()
        invariant
            i <= row.entries@.len(),
            columns@.len() == i,
            forall|k: int|
                0 <= k < i ==> {
                    &&& (#[trigger] columns@[k]).0@ == row.entries@[k].0@
                    &&& columns@[k].1 == row.entries@[k].1.tag()
                },
        decreases row.entries@.len() - i,
    {
        let name = row.entries[i].0.clone();
        let ty = row.entries[i].1.kind();
        columns.push((name, ty));
        i = i + 1;
    }
    Schema { columns }
}

/// The schema for a batch: the explicit one when given, else the one that its
/// first row implies. Inference over no rows fails with `EmptyBatch`.
pub fn resolve_schema(rows: &Vec<Row>, explicit: Option<Schema>) -> (r: Result<Schema, EmptyBatch>)
    ensures
        explicit is Some ==> r == Ok::<Schema, EmptyBatch>(explicit->0),
        explicit is None && rows@.len() == 0 ==> r == Err::<Schema, EmptyBatch>(EmptyBatch),
        explicit is None && rows@.len() > 0 ==> (r matches Ok(s) && inferred_from(
            s.columns@,
            rows@[0],
        )),
{
    match explicit {
        Some(s) => Ok(s),
        None => {
            if rows.len() == 0 {
                Err(EmptyBatch)
            } else {
                Ok(columns_of(&rows[0]))
            }
        },
    }
}

} // verus!
