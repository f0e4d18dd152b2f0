//! The dispatcher: one event in, at most one change of the grid out.
//!
//! The dispatcher keeps no state of its own. What it does is a function of
//! the grid and the event, written down in [`next_grid`] and [`outcome_for`];
//! [`handle`] is the executable form of both.

use vstd::prelude::*;
use crate::cell::{ActionTag, Cell, CellView};
use crate::grid::{GridModel, GridView, ScrollReply};
use crate::label::{cell_label, label_text};
use crate::row::Row;

verus! {

/// Activating a cell in this column asks for a new row.
pub const ADD_ROW_COLUMN: usize = 1;

/// Activating a cell in this column asks for a new cell in the same row.
pub const ADD_CELL_COLUMN: usize = 2;

/// What the host reports to the dispatcher.
#[derive(Clone, Copy, Debug, PartialEq, Eq, Structural)]
pub enum Event {
    /// A row is wanted at the end of the grid.
    AddRowRequested,
    /// A cell is wanted at the end of the row with this index.
    AddCellRequested(usize),
    /// The cell at this row and column was activated.
    CellActivated(usize, usize),
    /// The grid was scrolled.
    ScrollOffsetChanged,
    /// A synchronisation was asked for.
    SyncRequested,
}

/// What the dispatcher did with an event, for diagnostics.
#[derive(Clone, Copy, Debug, PartialEq, Eq, Structural)]
pub enum Notice {
    /// A row was appended at this index.
    RowAdded(usize),
    /// A cell was appended to this row, at this index.
    CellAdded(usize, usize),
    /// A cell was wanted in a row that does not exist; nothing was done.
    RowMissing(usize),
    /// The activated cell, at this row and column, stands in a column that
    /// asks for nothing; nothing was done.
    NothingBound(usize, usize),
    /// The event was taken note of; the grid has no part in it.
    Acknowledged,
}

/// The dispatcher's answer to one event.
#[derive(Clone, Copy, Debug, PartialEq, Eq, Structural)]
pub struct Outcome {
    /// The event that the incoming one was turned into, if it was.
    pub reissued: Option<Event>,
    /// What was done.
    pub notice: Notice,
}

/// The event that an activation stands for: the column of the activated cell
/// decides. Every other event stands for itself and is not reissued.
pub open spec fn reissued(event: Event) -> Option<Event> {
    match event {
        Event::CellActivated(row_index, column) => if column == ADD_ROW_COLUMN {
            Some(Event::AddRowRequested)
        } else if column == ADD_CELL_COLUMN {
            Some(Event::AddCellRequested(row_index))
        } else {
            None
        },
        _ => None,
    }
}

/// The row that a request for a row appends at `row_index`: a caption and two
/// buttons.
pub open spec fn fresh_row(row_index: nat) -> Seq<CellView> {
    seq![
        CellView::Text(label_text(row_index, 0)),
        CellView::Button("Add Row"@, ActionTag::TriggersAddRow),
        CellView::Button("Add Cell"@, ActionTag::TriggersAddCell),
    ]
}

/// The cell that a request for a cell appends to row `row_index` when that
/// row holds `cell_count` cells.
pub open spec fn fresh_cell(row_index: nat, cell_count: nat) -> CellView {
    CellView::Text(label_text(row_index, cell_count))
}

/// The grid after a request for a row.
pub open spec fn after_add_row(grid: GridView) -> GridView {
    grid.with_row(fresh_row(grid.rows.len()))
}

/// The grid after a request for a cell in row `row_index`: unchanged where
/// there is no such row.
pub open spec fn after_add_cell(grid: GridView, row_index: usize) -> GridView {
    if grid.has_row(row_index as int) {
        grid.with_cell(
            row_index as int,
            fresh_cell(row_index as nat, grid.rows[row_index as int].len()),
        )
    } else {
        grid
    }
}

/// The grid after the dispatcher has handled `event`.
pub open spec fn next_grid(grid: GridView, event: Event) -> GridView {
    match event {
        Event::AddRowRequested => after_add_row(grid),
        Event::AddCellRequested(row_index) => after_add_cell(grid, row_index),
        Event::CellActivated(row_index, column) => if column == ADD_ROW_COLUMN {
            after_add_row(grid)
        } else if column == ADD_CELL_COLUMN {
            after_add_cell(grid, row_index)
        } else {
            grid
        },
        Event::ScrollOffsetChanged => grid,
        Event::SyncRequested => grid,
    }
}

/// What is noted of a request for a row.
pub open spec fn notice_of_add_row(grid: GridView) -> Notice {
    Notice::RowAdded(grid.rows.len() as usize)
}

/// What is noted of a request for a cell in row `row_index`.
pub open spec fn notice_of_add_cell(grid: GridView, row_index: usize) -> Notice {
    if grid.has_row(row_index as int) {
        Notice::CellAdded(row_index, grid.rows[row_index as int].len() as usize)
    } else {
        Notice::RowMissing(row_index)
    }
}

/// The dispatcher's answer to `event` on `grid`.
pub open spec fn outcome_for(grid: GridView, event: Event) -> Outcome {
    Outcome {
        reissued: reissued(event),
        notice: match event {
            Event::AddRowRequested => notice_of_add_row(grid),
            Event::AddCellRequested(row_index) => notice_of_add_cell(grid, row_index),
            Event::CellActivated(row_index, column) => if column == ADD_ROW_COLUMN {
                notice_of_add_row(grid)
            } else if column == ADD_CELL_COLUMN {
                notice_of_add_cell(grid, row_index)
            } else {
                Notice::NothingBound(row_index, column)
            },
            Event::ScrollOffsetChanged => Notice::Acknowledged,
            Event::SyncRequested => Notice::Acknowledged,
        },
    }
}

/// The event that the host hands in when a grid with this setting is
/// scrolled.
pub open spec fn scroll_event_of(reply: ScrollReply) -> Event {
    match reply {
        ScrollReply::Sync => Event::SyncRequested,
        ScrollReply::ReportOffset => Event::ScrollOffsetChanged,
    }
}

/// The event to hand in when a grid with this setting is scrolled.
pub fn scroll_event(reply: ScrollReply) -> (event: Event)
    ensures
        event == scroll_event_of(reply),
{
    match reply {
        ScrollReply::Sync => Event::SyncRequested,
        ScrollReply::ReportOffset => Event::ScrollOffsetChanged,
    }
}

/// Turns an activation into the request that its column stands for.
pub fn reissue(event: Event) -> (again: Option<Event>)
    ensures
        again == reissued(event),
{
    match event {
        Event::CellActivated(row_index, column) => {
            if column == ADD_ROW_COLUMN {
                Some(Event::AddRowRequested)
            } else if column == ADD_CELL_COLUMN {
                Some(Event::AddCellRequested(row_index))
            } else {
                None
            }
        },
        _ => None,
    }
}

/// Builds the row that a request for a row appends at `row_index`.
pub fn default_row(row_index: usize) -> (row: Row)
    ensures
        row@ == fresh_row(row_index as nat),
{
    let mut row = Row::new();
    row.push(Cell::Text(cell_label(row_index, 0)));
    row.push(Cell::button("Add Row", ActionTag::TriggersAddRow));
    row.push(Cell::button("Add Cell", ActionTag::TriggersAddCell));
    assert(row@ =~= fresh_row(row_index as nat));
    row
}

fn add_row_requested(grid: &mut GridModel) -> (notice: Notice)
    ensures
        final(grid)@ == after_add_row(old(grid)@),
        notice == notice_of_add_row(old(grid)@),
{
    let row = default_row(grid.row_count());
    let row_index = grid.add_row(row);
    Notice::RowAdded(row_index)
}

fn add_cell_requested(grid: &mut GridModel, row_index: usize) -> (notice: Notice)
    ensures
        final(grid)@ == after_add_cell(old(grid)@, row_index),
        notice == notice_of_add_cell(old(grid)@, row_index),
{
    let cell_count = match grid.cell_count(row_index) {
        Some(n) => n,
        None => 0,
    };
    match grid.add_cell(row_index, Cell::Text(cell_label(row_index, cell_count))) {
        Ok(cell_index) => Notice::CellAdded(row_index, cell_index),
        Err(missing) => Notice::RowMissing(missing.row_index),
    }
}

/// Handles one event. A request for a row appends the default row; a request
/// for a cell appends a captioned cell to its row, or does nothing where the
/// row does not exist; an activation is turned into the request that its
/// column stands for; scrolling and synchronising leave the grid alone.
pub fn handle(grid: &mut GridModel, event: Event) -> (outcome: Outcome)
    ensures
        final(grid)@ == next_grid(old(grid)@, event),
        outcome == outcome_for(old(grid)@, event),
{
    let again = reissue(event);
    let acted = match again {
        Some(request) => request,
        None => event,
    };
    let notice = match acted {
        Event::AddRowRequested => add_row_requested(grid),
        Event::AddCellRequested(row_index) => add_cell_requested(grid, row_index),
        Event::CellActivated(row_index, column) => Notice::NothingBound(row_index, column),
        Event::ScrollOffsetChanged => Notice::Acknowledged,
        Event::SyncRequested => Notice::Acknowledged,
    };
    Outcome { reissued: again, notice }
}

/// The grid after the events have been handled one after another, the first
/// one first.
pub open spec fn grid_after(grid: GridView, events: Seq<Event>) -> GridView
    decreases events.len(),
{
    if events.len() == 0 {
        grid
    } else {
        next_grid(grid_after(grid, events.drop_last()), events.last())
    }
}

/// Handles the events in their order and returns the answer to each.
pub fn handle_all(grid: &mut GridModel, events: &Vec<Event>) -> (outcomes: Vec<Outcome>)
    ensures
        final(grid)@ == grid_after(old(grid)@, events@),
        outcomes@.len() == events@.len(),
        forall|i: int|
            0 <= i < events@.len() ==> outcomes@[i] == outcome_for(
                grid_after(old(grid)@, events@.take(i)),
                events@[i],
            ),
{
    let mut outcomes: Vec<Outcome> = Vec::new();
    let mut done: usize = 0;
    assert(events@.take(0) =~= Seq::<Event>::empty());
    while done < events.len()
        invariant
            done <= events@.len(),
            grid@ == grid_after(old(grid)@, events@.take(done as int)),
            outcomes@.len() == done,
            forall|i: int|
                0 <= i < done ==> outcomes@[i] == outcome_for(
                    grid_after(old(grid)@, events@.take(i)),
                    events@[i],
                ),
        decreases events@.len() - done,
    {
        let event = events[done];
        proof {
            let upto = events@.take(done as int + 1);
            assert(upto.drop_last() =~= events@.take(done as int));
            assert(upto.last() == event);
        }
        let outcome = handle(grid, event);
        outcomes.push(outcome);
        done = done + 1;
    }
    assert(events@.take(events@.len() as int) =~= events@);
    outcomes
}

/// However many rows are asked for, one after another, the grid ends with
/// that many rows more than it had.
pub proof fn lemma_row_requests_add_up(grid: GridView, events: Seq<Event>)
    requires
        forall|i: int| 0 <= i < events.len() ==> events[i] == Event::AddRowRequested,
    ensures
        grid_after(grid, events).rows.len() == grid.rows.len() + events.len(),
    decreases events.len(),
{
    if events.len() > 0 {
        lemma_row_requests_add_up(grid, events.drop_last());
    }
}

/// A request for a cell in a row that exists makes that row longer by one
/// cell, keeps the cells it had, and leaves every other row and the
/// configuration as they were.
pub proof fn lemma_cell_request_in_range(grid: GridView, row_index: usize)
    requires
        grid.has_row(row_index as int),
    ensures
        ({
            let next = next_grid(grid, Event::AddCellRequested(row_index));
            &&& next.rows.len() == grid.rows.len()
            &&& next.rows[row_index as int].len() == grid.rows[row_index as int].len() + 1
            &&& next.rows[row_index as int].drop_last() == grid.rows[row_index as int]
            &&& forall|other: int|
                0 <= other < grid.rows.len() && other != row_index ==> next.rows[other]
                    == grid.rows[other]
            &&& next.config == grid.config
        }),
{
    let next = next_grid(grid, Event::AddCellRequested(row_index));
    assert(next.rows[row_index as int].drop_last() =~= grid.rows[row_index as int]);
}

/// A request for a cell in a row that does not exist changes nothing,
/// however often it is made.
pub proof fn lemma_cell_request_out_of_range(grid: GridView, row_index: usize)
    requires
        !grid.has_row(row_index as int),
    ensures
        next_grid(grid, Event::AddCellRequested(row_index)) == grid,
        next_grid(next_grid(grid, Event::AddCellRequested(row_index)), Event::AddCellRequested(row_index))
            == grid,
{
}

/// Activating a cell in the column that adds rows leaves the grid as a
/// request for a row does, whichever row the cell stands in.
pub proof fn lemma_activation_adds_row(grid: GridView, row_index: usize)
    ensures
        next_grid(grid, Event::CellActivated(row_index, ADD_ROW_COLUMN)) == next_grid(
            grid,
            Event::AddRowRequested,
        ),
        reissued(Event::CellActivated(row_index, ADD_ROW_COLUMN)) == Some(Event::AddRowRequested),
{
}

/// Activating a cell in the column that adds cells leaves the grid as a
/// request for a cell in the same row does.
pub proof fn lemma_activation_adds_cell(grid: GridView, row_index: usize)
    ensures
        next_grid(grid, Event::CellActivated(row_index, ADD_CELL_COLUMN)) == next_grid(
            grid,
            Event::AddCellRequested(row_index),
        ),
        reissued(Event::CellActivated(row_index, ADD_CELL_COLUMN)) == Some(
            Event::AddCellRequested(row_index),
        ),
{
}

} // verus!
