//! The state of a terminal dashboard for a job-processing backend: the nested
//! status model, its flattening into a selectable table, the two cursors, the
//! profile switcher and the fetch throttle, each with a proved contract.

pub mod app;
pub mod models;
pub mod rows;
pub mod selection;
pub mod text;
pub mod throttle;
pub mod ui;
pub mod update;
