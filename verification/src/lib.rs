//! Fail-closed sync lifecycle machine for the Opto Sync desktop shell, with the
//! native status rendering and the probe cycle that the machine authorizes.
pub mod app;
pub mod config;
pub mod lifecycle;
pub mod state;
pub mod ui;
