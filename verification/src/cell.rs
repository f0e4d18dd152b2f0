//! Cells: the entries of a grid.

use vstd::prelude::*;
use vstd::string::StringExecFns;

verus! {

/// What an interactive cell asks for when it is activated.
#[derive(Clone, Copy, Debug, PartialEq, Eq, Structural)]
pub enum ActionTag {
    /// The cell asks for a new row at the end of the grid.
    TriggersAddRow,
    /// The cell asks for a new cell at the end of its own row.
    TriggersAddCell,
    /// The cell asks for nothing.
    NoAction,
}

/// One entry of a grid. A cell does not change once made; a grid replaces it
/// as a whole.
#[derive(Clone, Debug, PartialEq, Eq)]
pub enum Cell {
    /// A caption.
    Text(String),
    /// A button with its caption and what it asks for.
    Button(String, ActionTag),
    /// Content that only the host understands, carried through untouched.
    Embedded(String),
}

/// The mathematical value of a [`Cell`].
pub ghost enum CellView {
    Text(Seq<char>),
    Button(Seq<char>, ActionTag),
    Embedded(Seq<char>),
}

impl View for Cell {
    type V = CellView;

    open spec fn view(&self) -> CellView {
        match *self {
            Cell::Text(caption) => CellView::Text(caption@),
            Cell::Button(caption, tag) => CellView::Button(caption@, tag),
            Cell::Embedded(content) => CellView::Embedded(content@),
        }
    }
}

impl Cell {
    /// A text cell with the given caption.
    pub fn text(caption: &str) -> (cell: Cell)
        ensures
            cell@ == CellView::Text(caption@),
    {
        Cell::Text(String::from_str(caption))
    }

    /// A button with the given caption and action.
    pub fn button(caption: &str, tag: ActionTag) -> (cell: Cell)
        ensures
            cell@ == CellView::Button(caption@, tag),
    {
        Cell::Button(String::from_str(caption), tag)
    }

    /// A cell that carries host content.
    pub fn embedded(content: &str) -> (cell: Cell)
        ensures
            cell@ == CellView::Embedded(content@),
    {
        Cell::Embedded(String::from_str(content))
    }

    /// What activating this cell asks for: a button's own tag, nothing for
    /// the other kinds.
    pub fn action(&self) -> (tag: ActionTag)
        ensures
            tag == action_of(self@),
    {
        match self {
            Cell::Button(_, tag) => *tag,
            _ => ActionTag::NoAction,
        }
    }
}

/// The action that a cell value carries.
pub open spec fn action_of(cell: CellView) -> ActionTag {
    match cell {
        CellView::Button(_, tag) => tag,
        _ => ActionTag::NoAction,
    }
}

} // verus!
