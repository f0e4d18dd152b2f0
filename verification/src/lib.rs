//! A spreadsheet-like grid model and the dispatcher that drives it.
//!
//! The model is plain data: a grid owns rows, a row owns cells. The dispatcher
//! turns one incoming event into at most one change of the grid and a notice
//! for diagnostics. Nothing here draws, reads input or performs I/O; a host
//! reads the grid to render it and hands events in one at a time.

pub mod cell;
pub mod dispatch;
pub mod error;
pub mod grid;
pub mod label;
pub mod my_app;
pub mod row;
pub mod theme;
