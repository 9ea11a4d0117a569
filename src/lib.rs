//! A modal terminal dashboard: keyboard navigation over a fixed ring of
//! sections, a `:` command line, and an event source that merges key input
//! with periodic ticks.
pub mod app;
pub mod event;
pub mod ui;
