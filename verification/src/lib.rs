//! Ratado: a keyboard-driven task manager.
//!
//! This crate holds the verified core of the application: the task model,
//! filtering and sorting, the text-editing widgets, dialog state machines,
//! key bindings and the command state machine of the application.
pub mod app;
pub mod handlers;
pub mod models;
pub mod keys;
pub mod text;
pub mod storage;
pub mod ui;
pub mod utils;

use vstd::prelude::*;

verus! {

} // verus!
