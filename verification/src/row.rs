//! Rows: ordered sequences of cells.

use vstd::prelude::*;
use crate::cell::{Cell, CellView};

verus! {

/// An ordered sequence of cells. A row grows at its end; a cell in it can be
/// replaced in place; nothing is ever removed.
#[derive(Clone, Debug, PartialEq, Eq)]
pub struct Row {
    cells: Vec<Cell>,
}

impl View for Row {
    type V = Seq<CellView>;

    closed spec fn view(&self) -> Seq<CellView> {
        self.cells@.map_values(|cell: Cell| cell@)
    }
}

impl Row {
    /// A row without cells.
    pub fn new() -> (row: Row)
        ensures
            row@ == Seq::<CellView>::empty(),
    {
        let row = Row { cells: Vec::new() };
        assert(row@ =~= Seq::<CellView>::empty());
        row
    }

    /// The number of cells.
    pub fn len(&self) -> (n: usize)
        ensures
            n == self@.len(),
    {
        self.cells.len()
    }

    /// The cell at `index`, if the row is that long.
    pub fn get(&self, index: usize) -> (found: Option<&Cell>)
        ensures
            index < self@.len() ==> found.is_some() && found.unwrap()@ == self@[index as int],
            index >= self@.len() ==> found.is_none(),
    {
        if index < self.cells.len() {
            Some(&self.cells[index])
        } else {
            None
        }
    }

    /// Appends a cell and returns its index, which is the length before.
    pub fn push(&mut self, cell: Cell) -> (index: usize)
        ensures
            final(self)@ == old(self)@.push(cell@),
            index == old(self)@.len(),
    {
        let index = self.cells.len();
        self.cells.push(cell);
        assert(self@ =~= old(self)@.push(cell@));
        index
    }

    /// Puts `cell` in place of the cell at `index`. Answers whether the row
    /// had such a cell; where it had none, the row stays as it was.
    pub fn replace(&mut self, index: usize, cell: Cell) -> (done: bool)
        ensures
            done == (index < old(self)@.len()),
            done ==> final(self)@ == old(self)@.update(index as int, cell@),
            !done ==> final(self)@ == old(self)@,
    {
        if index < self.cells.len() {
            self.cells.set(index, cell);
            assert(self@ =~= old(self)@.update(index as int, cell@));
            true
        } else {
            false
        }
    }
}

} // verus!
