//! Terminal wizard of the generator: its state and its screens.

pub mod app;
pub mod components;
