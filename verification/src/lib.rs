//! A terminal note manager, verified at its core.
//!
//! The library holds the parts of the application with real logic: the data
//! model of notes and the selection cursor, the single-line edit buffers used
//! by the form, the persistence layer over an embedded SQLite store, and the
//! controller state machine that turns classified key input into state
//! transitions and store calls.  Terminal I/O and painting live outside the
//! library.

pub mod models;
pub mod editor;
pub mod db;
pub mod controller;
