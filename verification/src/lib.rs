//! A serial-port monitor for the terminal: the state machine behind its
//! screen, with every decision it takes verified.
pub mod app;
pub mod cli;
pub mod events;
pub mod laws;
pub mod menu;
pub mod output;
pub mod serial;
pub mod session;
pub mod text;
pub mod ui;
