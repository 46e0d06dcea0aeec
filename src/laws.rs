use vstd::prelude::*;
use crate::batch::Batch;
use crate::row::{first_named, lemma_lookup_at, lemma_lookup_present, Row};
use crate::schema::Schema;
use crate::transpose::{
    cell_ok, error_at, first_bad_row, first_failure, transpose_outcome, TransposeError,
};

verus! {

/// Every cell met before column `c`, row `r` in the scan of a transposition
/// (all rows of earlier columns, then earlier rows of column `c`) is valid.
pub open spec fn valid_before(rows: Seq<Row>, schema: Schema, c: int, r: int) -> bool {
    &&& forall|k: int, q: int|
        0 <= k < c && 0 <= q < rows.len() ==> cell_ok(
            #[trigger] rows[q],
            #[trigger] schema.name(k),
            schema.ty(k),
        )
    &&& forall|q: int| 0 <= q < r ==> cell_ok(#[trigger] rows[q], schema.name(c), schema.ty(c))
}

/// Rebuilding the rows of a successful transposition, column order back to
/// row order, gives every row back its value under every declared column,
/// and exactly the declared columns in schema order.
pub proof fn lemma_round_trip(rows: Seq<Row>, schema: Schema, b: Batch, rebuilt: Seq<Row>)
    requires
        transpose_outcome(rows, schema, Ok(b)),
        rebuilt.len() == b.num_rows,
        forall|r: int| 0 <= r < b.num_rows ==> b.is_row_at(r, #[trigger] rebuilt[r]),
    ensures
        rebuilt.len() == rows.len(),
        forall|r: int| 0 <= r < rows.len() ==> (#[trigger] rebuilt[r]).names() == schema.names(),
        forall|r: int, c: int|
            0 <= r < rows.len() && 0 <= c < schema.columns@.len() ==> (#[trigger] rebuilt[r]).spec_get(
                #[trigger] schema.name(c),
            ) == rows[r].spec_get(schema.name(c)),
{
    assert forall|r: int, c: int|
        0 <= r < rows.len() && 0 <= c < schema.columns@.len() implies (#[trigger] rebuilt[r]).spec_get(
        #[trigger] schema.name(c),
    ) == rows[r].spec_get(schema.name(c)) by {
        let entries = rebuilt[r].entries@;
        assert(b.is_row_at(r, rebuilt[r]));
        assert(entries[c].0@ == b.columns@[c].name@);
        lemma_lookup_present(entries, schema.name(c), c);
        let k = choose|k: int| 0 <= k <= c && first_named(entries, schema.name(c), k);
        lemma_lookup_at(entries, schema.name(c), k);
        assert(entries[k].0@ == b.columns@[k].name@);
        assert(rows[r].spec_get(schema.name(k)) == Some(b.columns@[k].data.cell(r)));
    }
    assert forall|r: int| 0 <= r < rows.len() implies (#[trigger] rebuilt[r]).names()
        == schema.names() by {
        assert(b.is_row_at(r, rebuilt[r]));
        assert forall|c: int| 0 <= c < schema.columns@.len() implies rebuilt[r].names()[c]
            == schema.names()[c] by {
            assert(rebuilt[r].entries@[c].0@ == b.columns@[c].name@);
        }
        assert(rebuilt[r].names() =~= schema.names());
    }
}

/// A failed transposition reports the first invalid cell of its scan.
pub proof fn lemma_first_failure_at(
    rows: Seq<Row>,
    schema: Schema,
    e: TransposeError,
    c: int,
    r: int,
)
    requires
        first_failure(rows, schema, e),
        0 <= c < schema.columns@.len(),
        0 <= r < rows.len(),
        !cell_ok(rows[r], schema.name(c), schema.ty(c)),
        valid_before(rows, schema, c, r),
    ensures
        error_at(rows[r], r, schema.name(c), schema.ty(c), e),
{
    let c2 = choose|c2: int|
        0 <= c2 < schema.columns@.len() && (forall|k: int, q: int|
            0 <= k < c2 && 0 <= q < rows.len() ==> cell_ok(
                #[trigger] rows[q],
                #[trigger] schema.name(k),
                schema.ty(k),
            )) && first_bad_row(rows, #[trigger] schema.name(c2), schema.ty(c2), e);
    let r2 = choose|r2: int|
        0 <= r2 < rows.len() && !cell_ok(#[trigger] rows[r2], schema.name(c2), schema.ty(c2))
            && (forall|k: int| 0 <= k < r2 ==> cell_ok(#[trigger] rows[k], schema.name(c2), schema.ty(c2)))
            && error_at(rows[r2], r2, schema.name(c2), schema.ty(c2), e);
    if c2 < c {
        assert(cell_ok(rows[r2], schema.name(c2), schema.ty(c2)));
    } else if c2 > c {
        assert(cell_ok(rows[r], schema.name(c), schema.ty(c)));
    } else if r2 < r {
        assert(cell_ok(rows[r2], schema.name(c), schema.ty(c)));
    } else if r2 > r {
        assert(cell_ok(rows[r], schema.name(c2), schema.ty(c2)));
    }
}

/// A row that lacks a declared column fails the transposition, and where it
/// is the first invalid cell of the scan, the error is `MissingColumn` naming
/// that row's zero-based index and the column.
pub proof fn lemma_missing_column(
    rows: Seq<Row>,
    schema: Schema,
    res: Result<Batch, TransposeError>,
    c: int,
    r: int,
)
    requires
        transpose_outcome(rows, schema, res),
        0 <= c < schema.columns@.len(),
        0 <= r < rows.len(),
        rows[r].spec_get(schema.name(c)) is None,
    ensures
        res is Err,
        valid_before(rows, schema, c, r) ==> (res matches Err(
            TransposeError::MissingColumn { row, column },
        ) && row == r && column@ == schema.name(c)),
{
    assert(!cell_ok(rows[r], schema.name(c), schema.ty(c)));
    if res is Ok {
        assert(cell_ok(rows[r], schema.name(c), schema.ty(c)));
    }
    if valid_before(rows, schema, c, r) {
        lemma_first_failure_at(rows, schema, res->Err_0, c, r);
    }
}

/// A row whose value under a declared column has another tag than declared
/// fails the transposition, and where it is the first invalid cell of the
/// scan, the error is `TypeMismatch` naming the row, the column, the declared
/// tag and the tag found.
pub proof fn lemma_type_mismatch(
    rows: Seq<Row>,
    schema: Schema,
    res: Result<Batch, TransposeError>,
    c: int,
    r: int,
)
    requires
        transpose_outcome(rows, schema, res),
        0 <= c < schema.columns@.len(),
        0 <= r < rows.len(),
        rows[r].spec_get(schema.name(c)) matches Some(v) && v.tag() != schema.ty(c),
    ensures
        res is Err,
        valid_before(rows, schema, c, r) ==> (res matches Err(
            TransposeError::TypeMismatch { row, column, expected, found },
        ) && row == r && column@ == schema.name(c) && expected == schema.ty(c) && found
            == rows[r].spec_get(schema.name(c))->Some_0.tag()),
{
    assert(!cell_ok(rows[r], schema.name(c), schema.ty(c)));
    if res is Ok {
        assert(cell_ok(rows[r], schema.name(c), schema.ty(c)));
    }
    if valid_before(rows, schema, c, r) {
        lemma_first_failure_at(rows, schema, res->Err_0, c, r);
    }
}

} // verus!
