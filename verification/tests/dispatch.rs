use grid_model::cell::{ActionTag, Cell};
use grid_model::dispatch::{
    default_row, handle, handle_all, reissue, scroll_event, Event, Notice, Outcome,
    ADD_CELL_COLUMN, ADD_ROW_COLUMN,
};
use grid_model::grid::{GridConfig, GridModel, ScrollReply};
use grid_model::my_app::MyApp;
use grid_model::row::Row;
use grid_model::theme::MyTheme;

fn config() -> GridConfig {
    GridConfig {
        viewport_width: 400,
        viewport_height: 400,
        min_cell_width: 100,
        min_cell_height: 100,
        on_scroll: ScrollReply::Sync,
        theme: MyTheme::Main,
    }
}

fn empty_grid() -> GridModel {
    GridModel::new(Vec::new(), config())
}

fn two_rows() -> GridModel {
    let mut grid = empty_grid();
    handle(&mut grid, Event::AddRowRequested);
    handle(&mut grid, Event::AddRowRequested);
    grid
}

fn plain(notice: Notice) -> Outcome {
    Outcome { reissued: None, notice }
}

#[test]
fn action_columns_are_one_and_two() {
    assert_eq!(ADD_ROW_COLUMN, 1);
    assert_eq!(ADD_CELL_COLUMN, 2);
}

#[test]
fn default_row_has_a_caption_and_two_buttons() {
    let row = default_row(0);
    assert_eq!(row.len(), 3);
    assert_eq!(row.get(0), Some(&Cell::text("Row 1, Cell 1")));
    assert_eq!(row.get(1), Some(&Cell::button("Add Row", ActionTag::TriggersAddRow)));
    assert_eq!(row.get(2), Some(&Cell::button("Add Cell", ActionTag::TriggersAddCell)));
    assert_eq!(default_row(41).get(0), Some(&Cell::text("Row 42, Cell 1")));
}

#[test]
fn reissue_goes_by_the_column() {
    assert_eq!(reissue(Event::CellActivated(7, 1)), Some(Event::AddRowRequested));
    assert_eq!(reissue(Event::CellActivated(7, 2)), Some(Event::AddCellRequested(7)));
    assert_eq!(reissue(Event::CellActivated(7, 0)), None);
    assert_eq!(reissue(Event::CellActivated(7, 3)), None);
    assert_eq!(reissue(Event::AddRowRequested), None);
    assert_eq!(reissue(Event::AddCellRequested(2)), None);
    assert_eq!(reissue(Event::ScrollOffsetChanged), None);
    assert_eq!(reissue(Event::SyncRequested), None);
}

#[test]
fn scroll_event_follows_the_setting() {
    assert_eq!(scroll_event(ScrollReply::Sync), Event::SyncRequested);
    assert_eq!(scroll_event(ScrollReply::ReportOffset), Event::ScrollOffsetChanged);
}

#[test]
fn add_row_requested_appends_the_default_row() {
    let mut grid = empty_grid();
    assert_eq!(handle(&mut grid, Event::AddRowRequested), plain(Notice::RowAdded(0)));
    assert_eq!(handle(&mut grid, Event::AddRowRequested), plain(Notice::RowAdded(1)));
    assert_eq!(grid.row_count(), 2);
    assert_eq!(grid.get_row(0), Some(&default_row(0)));
    assert_eq!(grid.get_row(1), Some(&default_row(1)));
    assert_eq!(grid.get_cell(1, 0), Some(&Cell::text("Row 2, Cell 1")));
}

#[test]
fn row_requests_add_up() {
    let mut grid = two_rows();
    let before = grid.row_count();
    let events = vec![Event::AddRowRequested; 25];
    let outcomes = handle_all(&mut grid, &events);
    assert_eq!(grid.row_count(), before + 25);
    assert_eq!(outcomes.len(), 25);
    for (i, outcome) in outcomes.iter().enumerate() {
        assert_eq!(*outcome, plain(Notice::RowAdded(before + i)));
    }
}

#[test]
fn add_cell_requested_grows_one_row_by_one_cell() {
    let mut grid = two_rows();
    let other = grid.get_row(1).cloned();
    assert_eq!(handle(&mut grid, Event::AddCellRequested(0)), plain(Notice::CellAdded(0, 3)));
    assert_eq!(grid.cell_count(0), Some(4));
    assert_eq!(grid.get_cell(0, 3), Some(&Cell::text("Row 1, Cell 4")));
    assert_eq!(grid.get_cell(0, 0), Some(&Cell::text("Row 1, Cell 1")));
    assert_eq!(grid.get_row(1).cloned(), other);
    assert_eq!(grid.row_count(), 2);
    assert_eq!(grid.config(), config());
}

#[test]
fn add_cell_requested_labels_by_the_cell_count() {
    let mut grid = GridModel::new(vec![Row::new(), Row::new()], config());
    assert_eq!(handle(&mut grid, Event::AddCellRequested(1)), plain(Notice::CellAdded(1, 0)));
    assert_eq!(handle(&mut grid, Event::AddCellRequested(1)), plain(Notice::CellAdded(1, 1)));
    assert_eq!(grid.get_cell(1, 0), Some(&Cell::text("Row 2, Cell 1")));
    assert_eq!(grid.get_cell(1, 1), Some(&Cell::text("Row 2, Cell 2")));
    assert_eq!(grid.cell_count(0), Some(0));
}

#[test]
fn add_cell_requested_out_of_range_changes_nothing() {
    let mut grid = two_rows();
    let before = grid.clone();
    assert_eq!(handle(&mut grid, Event::AddCellRequested(2)), plain(Notice::RowMissing(2)));
    assert_eq!(grid, before);
    assert_eq!(handle(&mut grid, Event::AddCellRequested(2)), plain(Notice::RowMissing(2)));
    assert_eq!(handle(&mut grid, Event::AddCellRequested(usize::MAX)), plain(Notice::RowMissing(usize::MAX)));
    assert_eq!(grid, before);
}

#[test]
fn add_cell_requested_on_an_empty_grid_changes_nothing() {
    let mut grid = empty_grid();
    assert_eq!(handle(&mut grid, Event::AddCellRequested(0)), plain(Notice::RowMissing(0)));
    assert_eq!(grid, empty_grid());
}

#[test]
fn activation_in_column_one_acts_as_a_row_request() {
    for row_index in [0usize, 1, 9] {
        let mut activated = two_rows();
        let mut requested = two_rows();
        let outcome = handle(&mut activated, Event::CellActivated(row_index, 1));
        handle(&mut requested, Event::AddRowRequested);
        assert_eq!(activated, requested);
        assert_eq!(activated.row_count(), 3);
        assert_eq!(
            outcome,
            Outcome { reissued: Some(Event::AddRowRequested), notice: Notice::RowAdded(2) }
        );
    }
}

#[test]
fn activation_in_column_two_acts_as_a_cell_request() {
    for row_index in [0usize, 1] {
        let mut activated = two_rows();
        let mut requested = two_rows();
        let outcome = handle(&mut activated, Event::CellActivated(row_index, 2));
        handle(&mut requested, Event::AddCellRequested(row_index));
        assert_eq!(activated, requested);
        assert_eq!(activated.cell_count(row_index), Some(4));
        assert_eq!(
            outcome,
            Outcome {
                reissued: Some(Event::AddCellRequested(row_index)),
                notice: Notice::CellAdded(row_index, 3),
            }
        );
    }
}

#[test]
fn activation_in_column_two_of_a_missing_row_is_dropped() {
    let mut grid = two_rows();
    let before = grid.clone();
    assert_eq!(
        handle(&mut grid, Event::CellActivated(4, 2)),
        Outcome { reissued: Some(Event::AddCellRequested(4)), notice: Notice::RowMissing(4) }
    );
    assert_eq!(grid, before);
}

#[test]
fn activation_in_another_column_does_nothing() {
    let mut grid = two_rows();
    let before = grid.clone();
    assert_eq!(handle(&mut grid, Event::CellActivated(0, 0)), plain(Notice::NothingBound(0, 0)));
    assert_eq!(handle(&mut grid, Event::CellActivated(1, 3)), plain(Notice::NothingBound(1, 3)));
    assert_eq!(handle(&mut grid, Event::CellActivated(8, 17)), plain(Notice::NothingBound(8, 17)));
    assert_eq!(grid, before);
}

#[test]
fn scroll_and_sync_are_acknowledged() {
    let mut grid = two_rows();
    let before = grid.clone();
    assert_eq!(handle(&mut grid, Event::ScrollOffsetChanged), plain(Notice::Acknowledged));
    assert_eq!(handle(&mut grid, Event::SyncRequested), plain(Notice::Acknowledged));
    assert_eq!(grid, before);
}

#[test]
fn handle_all_of_nothing_changes_nothing() {
    let mut grid = two_rows();
    let before = grid.clone();
    assert_eq!(handle_all(&mut grid, &Vec::new()), Vec::new());
    assert_eq!(grid, before);
}

#[test]
fn handle_all_handles_in_order() {
    let events = vec![
        Event::AddCellRequested(0),
        Event::AddRowRequested,
        Event::AddCellRequested(0),
        Event::CellActivated(0, 2),
        Event::CellActivated(0, 5),
        Event::SyncRequested,
    ];
    let mut batch = empty_grid();
    let outcomes = handle_all(&mut batch, &events);
    let mut single = empty_grid();
    let mut expected = Vec::new();
    for event in &events {
        expected.push(handle(&mut single, *event));
    }
    assert_eq!(outcomes, expected);
    assert_eq!(batch, single);
    assert_eq!(outcomes[0], plain(Notice::RowMissing(0)));
    assert_eq!(outcomes[1], plain(Notice::RowAdded(0)));
    assert_eq!(outcomes[2], plain(Notice::CellAdded(0, 3)));
    assert_eq!(outcomes[3].notice, Notice::CellAdded(0, 4));
    assert_eq!(batch.get_cell(0, 4), Some(&Cell::text("Row 1, Cell 5")));
}

#[test]
fn scenario_two_rows_then_cells() {
    let mut grid = empty_grid();
    assert_eq!(grid.row_count(), 0);
    handle(&mut grid, Event::AddRowRequested);
    handle(&mut grid, Event::AddRowRequested);
    assert_eq!(grid.row_count(), 2);

    let row0 = grid.cell_count(0).unwrap();
    let row1 = grid.get_row(1).cloned();
    handle(&mut grid, Event::AddCellRequested(0));
    assert_eq!(grid.cell_count(0), Some(row0 + 1));
    assert_eq!(grid.get_row(1).cloned(), row1);

    let before = grid.clone();
    let outcome = handle(&mut grid, Event::AddCellRequested(5));
    assert_eq!(grid, before);
    assert_eq!(outcome.notice, Notice::RowMissing(5));
}

#[test]
fn application_starts_with_its_seed_rows() {
    let app = MyApp::default();
    let grid = app.grid();
    assert_eq!(grid.row_count(), 2);
    assert_eq!(grid.cell_count(0), Some(4));
    assert_eq!(grid.cell_count(1), Some(0));
    assert_eq!(grid.get_cell(0, 0), Some(&Cell::text("Row 1, Cell 1")));
    assert_eq!(grid.get_cell(0, 1), Some(&Cell::button("Add Row", ActionTag::TriggersAddRow)));
    assert_eq!(grid.get_cell(0, 2), Some(&Cell::button("Add Cell", ActionTag::TriggersAddCell)));
    assert_eq!(grid.get_cell(0, 3), Some(&Cell::embedded("New Cell")));
    assert_eq!(grid.config(), config());
}

#[test]
fn application_update_is_the_dispatcher() {
    let mut app = MyApp::default();
    let mut grid = app.grid().clone();
    let events = [
        Event::CellActivated(0, 1),
        Event::CellActivated(1, 2),
        Event::AddCellRequested(9),
        Event::CellActivated(0, 0),
        Event::ScrollOffsetChanged,
    ];
    for event in events {
        assert_eq!(app.update(event), handle(&mut grid, event));
        assert_eq!(*app.grid(), grid);
    }
    assert_eq!(grid.row_count(), 3);
    assert_eq!(grid.get_cell(1, 0), Some(&Cell::text("Row 2, Cell 1")));
    assert_eq!(grid.get_cell(2, 0), Some(&Cell::text("Row 3, Cell 1")));
}
