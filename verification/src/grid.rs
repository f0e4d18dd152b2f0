//! The grid: rows of cells and the record that says how to show them.

use vstd::prelude::*;
use crate::cell::{Cell, CellView};
use crate::error::{CellNotFound, RowNotFound};
use crate::row::Row;
use crate::theme::MyTheme;

verus! {

/// Which event the host hands in when the grid is scrolled.
#[derive(Clone, Copy, Debug, PartialEq, Eq, Structural)]
pub enum ScrollReply {
    /// Scrolling asks for a synchronisation.
    Sync,
    /// Scrolling reports that the offset changed.
    ReportOffset,
}

/// How a grid wants to be shown. Lengths are in whole pixels.
#[derive(Clone, Copy, Debug, PartialEq, Eq, Structural)]
pub struct GridConfig {
    pub viewport_width: u32,
    pub viewport_height: u32,
    pub min_cell_width: u32,
    pub min_cell_height: u32,
    pub on_scroll: ScrollReply,
    pub theme: MyTheme,
}

/// The mathematical value of a [`GridModel`]: its rows, each a sequence of
/// cell values, and its configuration.
pub ghost struct GridView {
    pub rows: Seq<Seq<CellView>>,
    pub config: GridConfig,
}

impl GridView {
    /// Whether the grid has a row at `row_index`.
    pub open spec fn has_row(self, row_index: int) -> bool {
        0 <= row_index < self.rows.len()
    }

    /// Whether the grid has a cell at `cell_index` of row `row_index`.
    pub open spec fn has_cell(self, row_index: int, cell_index: int) -> bool {
        self.has_row(row_index) && 0 <= cell_index < self.rows[row_index].len()
    }

    /// The grid with `row` appended.
    pub open spec fn with_row(self, row: Seq<CellView>) -> GridView {
        GridView { rows: self.rows.push(row), config: self.config }
    }

    /// The grid with the row at `row_index` exchanged for `row`.
    pub open spec fn with_row_at(self, row_index: int, row: Seq<CellView>) -> GridView {
        GridView { rows: self.rows.update(row_index, row), config: self.config }
    }

    /// The grid with `cell` appended to the row at `row_index`.
    pub open spec fn with_cell(self, row_index: int, cell: CellView) -> GridView {
        self.with_row_at(row_index, self.rows[row_index].push(cell))
    }

    /// The grid with `cell` in place of the cell at `cell_index` of row
    /// `row_index`.
    pub open spec fn with_cell_at(self, row_index: int, cell_index: int, cell: CellView) -> GridView {
        self.with_row_at(row_index, self.rows[row_index].update(cell_index, cell))
    }
}

/// An ordered sequence of rows with a configuration. Rows and cells are
/// reached and changed only through the operations below.
#[derive(Clone, Debug, PartialEq, Eq)]
pub struct GridModel {
    rows: Vec<Row>,
    config: GridConfig,
}

/// The values of a sequence of rows, in the same order.
pub open spec fn row_values(rows: Seq<Row>) -> Seq<Seq<CellView>> {
    rows.map_values(|row: Row| row@)
}

/// Exchanging one row exchanges one value, at the same place.
pub broadcast proof fn lemma_row_values_update(rows: Seq<Row>, row_index: int, row: Row)
    requires
        0 <= row_index < rows.len(),
    ensures
        #[trigger] row_values(rows.update(row_index, row)) == row_values(rows).update(row_index, row@),
{
    assert(row_values(rows.update(row_index, row)) =~= row_values(rows).update(row_index, row@));
}

impl View for GridModel {
    type V = GridView;

    closed spec fn view(&self) -> GridView {
        GridView { rows: row_values(self.rows@), config: self.config }
    }
}

impl GridModel {
    /// A grid that holds the given seed rows, in their order.
    pub fn new(rows: Vec<Row>, config: GridConfig) -> (grid: GridModel)
        ensures
            grid@ == (GridView { rows: row_values(rows@), config }),
    {
        GridModel { rows, config }
    }

    /// The configuration that the grid was made with.
    pub fn config(&self) -> (config: GridConfig)
        ensures
            config == self@.config,
    {
        self.config
    }

    /// The number of rows.
    pub fn row_count(&self) -> (n: usize)
        ensures
            n == self@.rows.len(),
    {
        self.rows.len()
    }

    /// The number of cells in the row at `row_index`, if there is such a row.
    pub fn cell_count(&self, row_index: usize) -> (n: Option<usize>)
        ensures
            n == if self@.has_row(row_index as int) {
                Some(self@.rows[row_index as int].len() as usize)
            } else {
                None
            },
    {
        if row_index < self.rows.len() {
            Some(self.rows[row_index].len())
        } else {
            None
        }
    }

    /// The row at `row_index`, if there is one.
    pub fn get_row(&self, row_index: usize) -> (found: Option<&Row>)
        ensures
            self@.has_row(row_index as int) ==> found.is_some() && found.unwrap()@
                == self@.rows[row_index as int],
            !self@.has_row(row_index as int) ==> found.is_none(),
    {
        if row_index < self.rows.len() {
            Some(&self.rows[row_index])
        } else {
            None
        }
    }

    /// The cell at `cell_index` of the row at `row_index`, if both exist.
    pub fn get_cell(&self, row_index: usize, cell_index: usize) -> (found: Option<&Cell>)
        ensures
            self@.has_cell(row_index as int, cell_index as int) ==> found.is_some()
                && found.unwrap()@ == self@.rows[row_index as int][cell_index as int],
            !self@.has_cell(row_index as int, cell_index as int) ==> found.is_none(),
    {
        if row_index < self.rows.len() {
            self.rows[row_index].get(cell_index)
        } else {
            None
        }
    }

    /// Appends a row and returns its index, which is the row count before.
    pub fn add_row(&mut self, row: Row) -> (index: usize)
        ensures
            final(self)@ == old(self)@.with_row(row@),
            index == old(self)@.rows.len(),
    {
        let index = self.rows.len();
        self.rows.push(row);
        assert(self@.rows =~= old(self)@.rows.push(row@));
        index
    }

    /// The row at `row_index` for changing in place, if there is one. What
    /// the caller leaves in the row is what the grid then holds there.
    pub fn get_row_mut(&mut self, row_index: usize) -> (found: Option<&mut Row>)
        ensures
            match found {
                Some(row) => old(self)@.has_row(row_index as int) && (*row)@ == old(self)@.rows[row_index as int]
                    && final(self)@ == old(self)@.with_row_at(row_index as int, (*final(row))@),
                None => !old(self)@.has_row(row_index as int) && final(self)@ == old(self)@,
            },
    {
        if row_index < self.rows.len() {
            broadcast use lemma_row_values_update;
            Some(&mut self.rows[row_index])
        } else {
            None
        }
    }

    /// Appends a cell to the row at `row_index` and returns the cell's index
    /// in that row. Fails, and changes nothing, where there is no such row.
    pub fn add_cell(&mut self, row_index: usize, cell: Cell) -> (result: Result<usize, RowNotFound>)
        ensures
            match result {
                Ok(cell_index) => old(self)@.has_row(row_index as int)
                    && cell_index == old(self)@.rows[row_index as int].len()
                    && final(self)@ == old(self)@.with_cell(row_index as int, cell@),
                Err(e) => !old(self)@.has_row(row_index as int) && e == (RowNotFound { row_index })
                    && final(self)@ == old(self)@,
            },
    {
        if row_index < self.rows.len() {
            let cell_index = self.rows[row_index].push(cell);
            assert(self@.rows =~= old(self)@.rows.update(
                row_index as int,
                old(self)@.rows[row_index as int].push(cell@),
            ));
            Ok(cell_index)
        } else {
            Err(RowNotFound { row_index })
        }
    }

    /// Puts `cell` in place of the cell at `cell_index` of the row at
    /// `row_index`. Fails, and changes nothing, where there is no such cell.
    pub fn replace_cell(&mut self, row_index: usize, cell_index: usize, cell: Cell) -> (result: Result<
        (),
        CellNotFound,
    >)
        ensures
            match result {
                Ok(_) => old(self)@.has_cell(row_index as int, cell_index as int)
                    && final(self)@ == old(self)@.with_cell_at(row_index as int, cell_index as int, cell@),
                Err(e) => !old(self)@.has_cell(row_index as int, cell_index as int)
                    && e == (CellNotFound { row_index, cell_index })
                    && final(self)@ == old(self)@,
            },
    {
        if row_index < self.rows.len() {
            let done = self.rows[row_index].replace(cell_index, cell);
            if done {
                assert(self@.rows =~= old(self)@.rows.update(
                    row_index as int,
                    old(self)@.rows[row_index as int].update(cell_index as int, cell@),
                ));
                Ok(())
            } else {
                assert(self@.rows =~= old(self)@.rows);
                Err(CellNotFound { row_index, cell_index })
            }
        } else {
            Err(CellNotFound { row_index, cell_index })
        }
    }
}

/// A cell appended to a row is the cell found at the index that the append
/// returned, which is the length that the row had.
pub proof fn lemma_appended_cell_is_found(grid: GridView, row_index: int, cell: CellView)
    requires
        grid.has_row(row_index),
    ensures
        ({
            let after = grid.with_cell(row_index, cell);
            let cell_index = grid.rows[row_index].len() as int;
            after.has_cell(row_index, cell_index) && after.rows[row_index][cell_index] == cell
        }),
{
}

} // verus!
