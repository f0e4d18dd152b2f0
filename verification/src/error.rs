//! What a grid answers when an index names nothing.

use vstd::prelude::*;

verus! {

/// The grid has no row at this index.
#[derive(Clone, Copy, Debug, PartialEq, Eq, Structural)]
pub struct RowNotFound {
    pub row_index: usize,
}

/// The grid has no cell at this position: the row is missing or too short.
#[derive(Clone, Copy, Debug, PartialEq, Eq, Structural)]
pub struct CellNotFound {
    pub row_index: usize,
    pub cell_index: usize,
}

} // verus!
