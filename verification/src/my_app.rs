//! The application's state: one grid, changed by events.

use vstd::prelude::*;
use crate::cell::{Cell, CellView};
use crate::dispatch::{default_row, fresh_row, handle, next_grid, outcome_for, Event, Outcome};
use crate::grid::{GridConfig, GridModel, GridView, ScrollReply};
use crate::row::Row;
use crate::theme::MyTheme;

verus! {

/// The configuration that the application starts with.
pub open spec fn initial_config() -> GridConfig {
    GridConfig {
        viewport_width: 400,
        viewport_height: 400,
        min_cell_width: 100,
        min_cell_height: 100,
        on_scroll: ScrollReply::Sync,
        theme: MyTheme::Main,
    }
}

/// The grid that the application starts with: the default row with one
/// embedded cell after it, and an empty row.
pub open spec fn initial_grid() -> GridView {
    GridView {
        rows: seq![
            fresh_row(0).push(CellView::Embedded("New Cell"@)),
            Seq::<CellView>::empty(),
        ],
        config: initial_config(),
    }
}

/// The application: it owns the grid for the whole of its life.
#[derive(Clone, Debug, PartialEq, Eq)]
pub struct MyApp {
    grid: GridModel,
}

impl View for MyApp {
    type V = GridView;

    closed spec fn view(&self) -> GridView {
        self.grid@
    }
}

impl Default for MyApp {
    fn default() -> (app: MyApp)
        ensures
            app@ == initial_grid(),
    {
        let mut first = default_row(0);
        first.push(Cell::embedded("New Cell"));
        let second = Row::new();
        let mut rows: Vec<Row> = Vec::new();
        rows.push(first);
        rows.push(second);
        let config = GridConfig {
            viewport_width: 400,
            viewport_height: 400,
            min_cell_width: 100,
            min_cell_height: 100,
            on_scroll: ScrollReply::Sync,
            theme: MyTheme::Main,
        };
        let grid = GridModel::new(rows, config);
        assert(grid@.rows =~= initial_grid().rows);
        MyApp { grid }
    }
}

impl MyApp {
    /// The grid as it stands, for the host to read and draw.
    pub fn grid(&self) -> (grid: &GridModel)
        ensures
            grid@ == self@,
    {
        &self.grid
    }

    /// Handles one event against the application's grid.
    pub fn update(&mut self, event: Event) -> (outcome: Outcome)
        ensures
            final(self)@ == next_grid(old(self)@, event),
            outcome == outcome_for(old(self)@, event),
    {
        handle(&mut self.grid, event)
    }
}

} // verus!
