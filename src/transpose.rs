use vstd::prelude::*;
use crate::batch::{Batch, Column, ColumnData};
use crate::row::Row;
use crate::schema::{inferred_from, resolve_schema, EmptyBatch, Schema};
use crate::value::{Ty, Value};

verus! {

/// Why a set of rows could not be turned into a batch.
#[derive(Debug, PartialEq, Eq)]
pub enum TransposeError {
    /// Schema inference was asked for over no rows.
    EmptyBatch,
    /// Row `row` (counted from zero) has no value for `column`.
    MissingColumn { row: usize, column: String },
    /// Row `row` holds a value tagged `found` for `column`, declared `expected`.
    TypeMismatch { row: usize, column: String, expected: Ty, found: Ty },
}

/// `row` holds a value under `name`, tagged `ty`.
pub open spec fn cell_ok(row: Row, name: Seq<char>, ty: Ty) -> bool {
    match row.spec_get(name) {
        Some(v) => v.tag() == ty,
        None => false,
    }
}

/// `e` reports what is wrong with the value under `name`, declared `ty`, of
/// `row`, which stands at index `r`.
pub open spec fn error_at(row: Row, r: int, name: Seq<char>, ty: Ty, e: TransposeError) -> bool {
    match row.spec_get(name) {
        None => e matches TransposeError::MissingColumn { row: i, column } && i == r && column@
            == name,
        Some(v) => e matches TransposeError::TypeMismatch { row: i, column, expected, found } && i
            == r && column@ == name && expected == ty && found == v.tag(),
    }
}

/// `e` reports the first row of `rows` that has no value tagged `ty` under `name`.
pub open spec fn first_bad_row(rows: Seq<Row>, name: Seq<char>, ty: Ty, e: TransposeError) -> bool {
    exists|r: int|
        0 <= r < rows.len() && !cell_ok(#[trigger] rows[r], name, ty) && (forall|k: int|
            0 <= k < r ==> cell_ok(#[trigger] rows[k], name, ty)) && error_at(rows[r], r, name, ty, e)
}

/// Every row satisfies `schema`: it holds a value of the declared type under
/// each declared name.
pub open spec fn satisfies(rows: Seq<Row>, schema: Schema) -> bool {
    forall|c: int, r: int|
        0 <= c < schema.columns@.len() && 0 <= r < rows.len() ==> cell_ok(
            #[trigger] rows[r],
            #[trigger] schema.name(c),
            schema.ty(c),
        )
}

/// `b` is `rows` in column order: one column per declared column, with its
/// name and type, holding each row's value under that name.
pub open spec fn transposed(rows: Seq<Row>, schema: Schema, b: Batch) -> bool {
    &&& b.wf()
    &&& b.num_rows == rows.len()
    &&& b.columns@.len() == schema.columns@.len()
    &&& forall|c: int|
        0 <= c < schema.columns@.len() ==> {
            &&& (#[trigger] b.columns@[c]).name@ == schema.name(c)
            &&& b.columns@[c].ty == schema.ty(c)
        }
    &&& forall|c: int, r: int|
        0 <= c < schema.columns@.len() && 0 <= r < rows.len() ==> (#[trigger] rows[r]).spec_get(
            schema.name(c),
        ) == Some((#[trigger] b.columns@[c]).data.cell(r))
}

/// `e` reports the first failure met when the columns are scanned in schema
/// order and the rows in their order within each column.
pub open spec fn first_failure(rows: Seq<Row>, schema: Schema, e: TransposeError) -> bool {
    exists|c: int|
        0 <= c < schema.columns@.len() && (forall|k: int, r: int|
            0 <= k < c && 0 <= r < rows.len() ==> cell_ok(
                #[trigger] rows[r],
                #[trigger] schema.name(k),
                schema.ty(k),
            )) && first_bad_row(rows, #[trigger] schema.name(c), schema.ty(c), e)
}

/// What transposing `rows` under `schema` gives: the batch when every row
/// satisfies the schema, else the first failure.
pub open spec fn transpose_outcome(
    rows: Seq<Row>,
    schema: Schema,
    res: Result<Batch, TransposeError>,
) -> bool {
    match res {
        Ok(b) => satisfies(rows, schema) && transposed(rows, schema, b),
        Err(e) => !satisfies(rows, schema) && first_failure(rows, schema, e),
    }
}

/// The payloads of the column `name`, declared `ty`, taken from each row in
/// order; the first row that lacks the column or holds another kind there
/// stops the scan.
pub fn collect_data(rows: &Vec<Row>, name: &String, ty: Ty) -> (res: Result<
    ColumnData,
    TransposeError,
>)
    ensures
        match res {
            Ok(d) => {
                &&& d.tag() == ty
                &&& d.spec_len() == rows@.len()
                &&& forall|r: int|
                    0 <= r < rows@.len() ==> (#[trigger] rows@[r]).spec_get(name@) == Some(
                        d.cell(r),
                    )
            },
            Err(e) => first_bad_row(rows@, name@, ty, e),
        },
        res is Ok <==> forall|r: int| 0 <= r < rows@.len() ==> cell_ok(#[trigger] rows@[r], name@, ty),
{
    match ty {
        Ty::String => match collect_strings(rows, name) {
            Ok(v) => Ok(ColumnData::String(v)),
            Err(e) => Err(e),
        },
        Ty::UInt8 => match collect_integers(rows, name) {
            Ok(v) => Ok(ColumnData::UInt8(v)),
            Err(e) => Err(e),
        },
    }
}

/// What is wrong with `found`, the value under `name` in row `r`, which is
/// not tagged `ty`; or, with no value, the missing column.
fn cell_error(r: usize, name: &String, ty: Ty, found: Option<&Value>) -> (e: TransposeError)
    requires
        match found {
            Some(v) => v.tag() != ty,
            None => true,
        },
    ensures
        match found {
            None => e matches TransposeError::MissingColumn { row: i, column } && i == r && column@
                == name@,
            Some(v) => e matches TransposeError::TypeMismatch { row: i, column, expected, found }
                && i == r && column@ == name@ && expected == ty && found == v.tag(),
        },
{
    match found {
        None => TransposeError::MissingColumn { row: r, column: name.clone() },
        Some(v) => TransposeError::TypeMismatch {
            row: r,
            column: name.clone(),
            expected: ty,
            found: v.kind(),
        },
    }
}

/// The string payloads of the column `name`, one per row.
pub fn collect_strings(rows: &Vec<Row>, name: &String) -> (res: Result<Vec<String>, TransposeError>)
    ensures
        match res {
            Ok(v) => {
                &&& v@.len() == rows@.len()
                &&& forall|r: int|
                    0 <= r < rows@.len() ==> (#[trigger] rows@[r]).spec_get(name@) == Some(
                        Value::String(v@[r]),
                    )
            },
            Err(e) => first_bad_row(rows@, name@, Ty::String, e),
        },
{
    let mut out: Vec<String> = Vec::new();
    let mut i: usize = 0;
    while i < rows.len()
        invariant
            i <= rows@.len(),
            out@.len() == i,
            forall|r: int|
                0 <= r < i ==> (#[trigger] rows@[r]).spec_get(name@) == Some(
                    Value::String(out@[r]),
                ),
        decreases rows@.len() - i,
    {
        let found = rows[i].get(name.as_str());
        match found {
            Some(Value::String(s)) => {
                out.push(s.clone());
            },
            _ => {
                let e = cell_error(i, name, Ty::String, found);
                assert(!cell_ok(rows@[i as int], name@, Ty::String));
                assert(error_at(rows@[i as int], i as int, name@, Ty::String, e));
                assert(forall|k: int| 0 <= k < i ==> cell_ok(#[trigger] rows@[k], name@, Ty::String));
                return Err(e);
            },
        }
        i = i + 1;
    }
    Ok(out)
}

/// The unsigned integer payloads of the column `name`, one per row.
pub fn collect_integers(rows: &Vec<Row>, name: &String) -> (res: Result<Vec<u8>, TransposeError>)
    ensures
        match res {
            Ok(v) => {
                &&& v@.len() == rows@.len()
                &&& forall|r: int|
                    0 <= r < rows@.len() ==> (#[trigger] rows@[r]).spec_get(name@) == Some(
                        Value::UInt8(v@[r]),
                    )
            },
            Err(e) => first_bad_row(rows@, name@, Ty::UInt8, e),
        },
{
    let mut out: Vec<u8> = Vec::new();
    let mut i: usize = 0;
    while i < rows.len()
        invariant
            i <= rows@.len(),
            out@.len() == i,
            forall|r: int|
                0 <= r < i ==> (#[trigger] rows@[r]).spec_get(name@) == Some(
                    Value::UInt8(out@[r]),
                ),
        decreases rows@.len() - i,
    {
        let found = rows[i].get(name.as_str());
        match found {
            Some(Value::UInt8(n)) => {
                out.push(*n);
            },
            _ => {
                let e = cell_error(i, name, Ty::UInt8, found);
                assert(!cell_ok(rows@[i as int], name@, Ty::UInt8));
                assert(error_at(rows@[i as int], i as int, name@, Ty::UInt8, e));
                assert(forall|k: int| 0 <= k < i ==> cell_ok(#[trigger] rows@[k], name@, Ty::UInt8));
                return Err(e);
            },
        }
        i = i + 1;
    }
    Ok(out)
}

/// The batch that holds `rows` in column order under `schema`. Columns are
/// filled in schema order, each from every row in order; the first row that
/// lacks a declared column, or holds a value of another type there, fails the
/// whole call and no batch is made.
pub fn transpose(rows: &Vec<Row>, schema: &Schema) -> (res: Result<Batch, TransposeError>)
    ensures
        transpose_outcome(rows@, *schema, res),
        res is Ok <==> satisfies(rows@, *schema),
{
    let mut columns: Vec<Column> = Vec::new();
    let mut c: usize = 0;
    while c < schema.columns.len()
        invariant
            c <= schema.columns@.len(),
            columns@.len() == c,
            forall|k: int, r: int|
                0 <= k < c && 0 <= r < rows@.len() ==> cell_ok(
                    #[trigger] rows@[r],
                    #[trigger] schema.name(k),
                    schema.ty(k),
                ),
            forall|k: int|
                0 <= k < c ==> {
                    &&& (#[trigger] columns@[k]).name@ == schema.name(k)
                    &&& columns@[k].ty == schema.ty(k)
                    &&& columns@[k].wf()
                    &&& columns@[k].data.spec_len() == rows@.len()
                },
            forall|k: int, r: int|
                0 <= k < c && 0 <= r < rows@.len() ==> (#[trigger] rows@[r]).spec_get(
                    schema.name(k),
                ) == Some((#[trigger] columns@[k]).data.cell(r)),
        decreases schema.columns@.len() - c,
    {
        let name = &schema.columns[c].0;
        let ty = schema.columns[c].1;
        match collect_data(rows, name, ty) {
            Ok(data) => {
                columns.push(Column { name: name.clone(), ty, data });
                proof {
                    assert forall|r: int| 0 <= r < rows@.len() implies cell_ok(
                        #[trigger] rows@[r],
                        schema.name(c as int),
                        schema.ty(c as int),
                    ) by {
                        assert(rows@[r].spec_get(name@) == Some(data.cell(r)));
                    }
                }
            },
            Err(e) => {
                proof {
                    let r = choose|r: int|
                        0 <= r < rows@.len() && !cell_ok(#[trigger] rows@[r], name@, ty) && (forall|
                            k: int,
                        | 0 <= k < r ==> cell_ok(#[trigger] rows@[k], name@, ty)) && error_at(
                            rows@[r],
                            r,
                            name@,
                            ty,
                            e,
                        );
                    assert(!cell_ok(rows@[r], schema.name(c as int), schema.ty(c as int)));
                    assert(first_bad_row(rows@, schema.name(c as int), schema.ty(c as int), e));
                }
                return Err(e);
            },
        }
        c = c + 1;
    }
    let b = Batch { num_rows: rows.len(), columns };
    assert(b.wf());
    Ok(b)
}

/// The batch for `rows`: under the explicit schema when one is given, else
/// under the schema that the first row implies. With neither a schema nor a
/// row the result is `EmptyBatch`.
pub fn batch_from_rows(rows: &Vec<Row>, explicit: Option<Schema>) -> (res: Result<
    Batch,
    TransposeError,
>)
    ensures
        match explicit {
            Some(s) => transpose_outcome(rows@, s, res),
            None => if rows@.len() == 0 {
                res == Err::<Batch, TransposeError>(TransposeError::EmptyBatch)
            } else {
                exists|s: Schema|
                    inferred_from(s.columns@, rows@[0]) && transpose_outcome(rows@, s, res)
            },
        },
{
    match resolve_schema(rows, explicit) {
        Ok(schema) => transpose(rows, &schema),
        Err(EmptyBatch) => Err(TransposeError::EmptyBatch),
    }
}

} // verus!
