//! Row-to-column transposition of dynamically typed records under a typed
//! schema, producing a column-oriented batch for a columnar store.
pub mod value;
pub mod row;
pub mod schema;
pub mod batch;
pub mod transpose;
pub mod laws;
pub mod block;
