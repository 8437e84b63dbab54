//! Window session coordination for a desktop overlay shell.
//!
//! The crate keeps the bookkeeping of an overlay application in one place:
//! which windows are live and under which label, which rectangles of the
//! toolbar window capture pointer input, and how the main window moves
//! between shown, hidden and destroyed.  Everything here is a pure model;
//! the platform layer performs the steps that the functions hand back.

pub mod commands;
pub mod error;
pub mod lifecycle;
pub mod region;
pub mod registry;
pub mod schema;
pub mod session;
