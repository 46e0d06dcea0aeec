use vstd::prelude::*;
use crate::row::Row;
use crate::value::{Ty, Value};

verus! {

/// The payloads of one column, homogeneous by construction.
#[derive(Debug, PartialEq, Eq)]
pub enum ColumnData {
    String(Vec<String>),
    UInt8(Vec<u8>),
}

impl ColumnData {
    /// The number of payloads.
    pub open spec fn spec_len(self) -> nat {
        match self {
            ColumnData::String(v) => v@.len(),
            ColumnData::UInt8(v) => v@.len(),
        }
    }

    /// The type tag of every payload.
    pub open spec fn tag(self) -> Ty {
        match self {
            ColumnData::String(_) => Ty::String,
            ColumnData::UInt8(_) => Ty::UInt8,
        }
    }

    /// Payload `r`, as a value.
    pub open spec fn cell(self, r: int) -> Value {
        match self {
            ColumnData::String(v) => Value::String(v@[r]),
            ColumnData::UInt8(v) => Value::UInt8(v@[r]),
        }
    }

    /// The number of payloads.
    pub fn len(&self) -> (r: usize)
        ensures
            r == self.spec_len(),
    {
        match self {
            ColumnData::String(v) => v.len(),
            ColumnData::UInt8(v) => v.len(),
        }
    }

    /// The type tag of the payloads.
    pub fn kind(&self) -> (r: Ty)
        ensures
            r == self.tag(),
    {
        match self {
            ColumnData::String(_) => Ty::String,
            ColumnData::UInt8(_) => Ty::UInt8,
        }
    }

    /// A copy of payload `r`, as a value.
    pub fn value_at(&self, r: usize) -> (v: Value)
        requires
            r < self.spec_len(),
        ensures
            v == self.cell(r as int),
    {
        match self {
            ColumnData::String(v) => Value::String(v[r].clone()),
            ColumnData::UInt8(v) => Value::UInt8(v[r]),
        }
    }
}

/// One named, typed column of a batch.
#[derive(Debug, PartialEq, Eq)]
pub struct Column {
    pub name: String,
    pub ty: Ty,
    pub data: ColumnData,
}

impl Column {
    /// The payloads are of the declared type.
    pub open spec fn wf(self) -> bool {
        self.data.tag() == self.ty
    }
}

/// Columns of equal length: the column-oriented form of a set of rows.
#[derive(Debug, PartialEq, Eq)]
pub struct Batch {
    pub num_rows: usize,
    pub columns: Vec<Column>,
}

impl Batch {
    /// Every column holds payloads of its declared type, one per row.
    pub open spec fn wf(self) -> bool {
        forall|c: int|
            0 <= c < self.columns@.len() ==> {
                &&& (#[trigger] self.columns@[c]).wf()
                &&& self.columns@[c].data.spec_len() == self.num_rows
            }
    }

    /// Row `r` reads, for each column in order, that column's name and its
    /// value at `r`.
    pub open spec fn is_row_at(self, r: int, row: Row) -> bool {
        &&& row.entries@.len() == self.columns@.len()
        &&& forall|c: int|
            0 <= c < self.columns@.len() ==> {
                &&& (#[trigger] row.entries@[c]).0@ == self.columns@[c].name@
                &&& row.entries@[c].1 == self.columns@[c].data.cell(r)
            }
    }

    /// A batch of `num_rows` rows from finished columns, or `None` where a
    /// column holds payloads of another type than declared or another number
    /// of them.
    pub fn assemble(num_rows: usize, columns: Vec<Column>) -> (r: Option<Batch>)
        ensures
            r is Some <==> (Batch { num_rows, columns }).wf(),
            r is Some ==> r == Some(Batch { num_rows, columns }),
    {
        let mut c: usize = 0;
        while c < columns.len()
            invariant
                c <= columns@.len(),
                forall|k: int|
                    0 <= k < c ==> {
                        &&& (#[trigger] columns@[k]).wf()
                        &&& columns@[k].data.spec_len() == num_rows
                    },
            decreases columns@.len() - c,
        {
            let col = &columns[c];
            if col.data.kind() != col.ty || col.data.len() != num_rows {
                assert(!(Batch { num_rows, columns }).wf()) by {
                    assert(columns@[c as int] == *col);
                }
                return None;
            }
            c = c + 1;
        }
        Some(Batch { num_rows, columns })
    }

    /// The number of rows.
    pub fn num_rows(&self) -> (r: usize)
        ensures
            r == self.num_rows,
    {
        self.num_rows
    }

    /// Row `r` rebuilt from the columns: each column's name with its value at
    /// `r`, in column order.
    pub fn row(&self, r: usize) -> (row: Row)
        requires
            self.wf(),
            r < self.num_rows,
        ensures
            self.is_row_at(r as int, row),
    {
        let mut entries: Vec<(String, Value)> = Vec::new();
        let mut c: usize = 0;
        while c < self.columns.len()
            invariant
                self.wf(),
                r < self.num_rows,
                c <= self.columns@.len(),
                entries@.len() == c,
                forall|k: int|
                    0 <= k < c ==> {
                        &&& (#[trigger] entries@[k]).0@ == self.columns@[k].name@
                        &&& entries@[k].1 == self.columns@[k].data.cell(r as int)
                    },
            decreases self.columns@.len() - c,
        {
            let col = &self.columns[c];
            assert(col.data.spec_len() == self.num_rows);
            let v = col.data.value_at(r);
            entries.push((col.name.clone(), v));
            c = c + 1;
        }
        Row { entries }
    }

    /// All rows rebuilt from the columns, in order.
    pub fn to_rows(&self) -> (rows: Vec<Row>)
        requires
            self.wf(),
        ensures
            rows@.len() == self.num_rows,
            forall|r: int| 0 <= r < self.num_rows ==> self.is_row_at(r, #[trigger] rows@[r]),
    {
        let mut rows: Vec<Row> = Vec::new();
        let mut r: usize = 0;
        while r < self.num_rows
            invariant
                self.wf(),
                r <= self.num_rows,
                rows@.len() == r,
                forall|k: int| 0 <= k < r ==> self.is_row_at(k, #[trigger] rows@[k]),
            decreases self.num_rows - r,
        {
            let row = self.row(r);
            rows.push(row);
            r = r + 1;
        }
        rows
    }
}

} // verus!
