pub mod app;
pub mod ui;
