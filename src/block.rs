use vstd::prelude::*;
use clickhouse_rs::Block;
use crate::batch::{Batch, Column, ColumnData};

verus! {

/// A client block, ready for the client's bulk insert. Verus sees only what
/// `block_columns` says of it.
#[verifier::external_body]
pub struct ClientBlock {
    pub inner: Block,
}

/// The columns of a client block, in order: each one's name and number of
/// rows.
pub uninterp spec fn block_columns(b: ClientBlock) -> Seq<(Seq<char>, nat)>;

/// Relies on clickhouse_rs::Block::new: a block with no columns.
#[verifier::external_body]
fn empty_block() -> (b: ClientBlock)
    ensures
        block_columns(b) == Seq::<(Seq<char>, nat)>::empty(),
{
    ClientBlock { inner: Block::new() }
}

/// Relies on clickhouse_rs::Block::column over `Vec<String>`: appends a column
/// of that name with one row per string. It panics where the block already
/// has columns of another number of rows.
#[verifier::external_body]
fn add_string_column(b: ClientBlock, name: &str, values: Vec<String>) -> (r: ClientBlock)
    requires
        block_columns(b).len() == 0 || block_columns(b)[0].1 == values@.len(),
    ensures
        block_columns(r) == block_columns(b).push((name@, values@.len())),
{
    ClientBlock { inner: b.inner.column(name, values) }
}

/// Relies on clickhouse_rs::Block::column over `Vec<u8>`: appends a column of
/// that name with one row per integer. It panics where the block already has
/// columns of another number of rows.
#[verifier::external_body]
fn add_uint8_column(b: ClientBlock, name: &str, values: Vec<u8>) -> (r: ClientBlock)
    requires
        block_columns(b).len() == 0 || block_columns(b)[0].1 == values@.len(),
    ensures
        block_columns(r) == block_columns(b).push((name@, values@.len())),
{
    ClientBlock { inner: b.inner.column(name, values) }
}

/// The names and lengths of a batch's columns, in order.
pub open spec fn batch_shape(b: Batch) -> Seq<(Seq<char>, nat)> {
    b.columns@.map_values(|c: Column| (c.name@, b.num_rows as nat))
}

/// The batch as a client block for a bulk insert: one block column per batch
/// column, in order, each with the batch's rows.
pub fn to_block(batch: Batch) -> (r: ClientBlock)
    requires
        batch.wf(),
    ensures
        block_columns(r) == batch_shape(batch),
{
    let ghost shape = batch_shape(batch);
    let num_rows = batch.num_rows;
    let mut columns = batch.columns;
    let mut block = empty_block();
    let ghost n = columns@.len();
    while columns.len() > 0
        invariant
            shape == batch_shape(batch),
            num_rows == batch.num_rows,
            n == batch.columns@.len(),
            columns@.len() <= n,
            columns@ == batch.columns@.subrange(n - columns@.len(), n as int),
            block_columns(block) == shape.subrange(0, n - columns@.len()),
            batch.wf(),
        decreases columns@.len(),
    {
        let ghost done = n - columns@.len();
        let column = columns.remove(0);
        assert(column == batch.columns@[done]);
        assert(column.data.spec_len() == num_rows);
        match column.data {
            ColumnData::String(values) => {
                block = add_string_column(block, column.name.as_str(), values);
            },
            ColumnData::UInt8(values) => {
                block = add_uint8_column(block, column.name.as_str(), values);
            },
        }
        assert(shape.subrange(0, done + 1) =~= shape.subrange(0, done).push(shape[done]));
        assert(columns@ =~= batch.columns@.subrange(n - columns@.len(), n as int));
    }
    assert(shape.subrange(0, n as int) =~= shape);
    block
}

} // verus!
