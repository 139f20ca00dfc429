//! A verified core for an interactive terminal directory browser.
//!
//! The library owns the navigation state machine: the current directory,
//! the selected entry, the scroll window, and the transition rules for each
//! user command. The surrounding program does the terminal, filesystem and
//! clipboard work and feeds the results back in as plain values.

pub mod controller;
pub mod listing;
pub mod path;
pub mod search;
pub mod viewport;
