//! Core logic of a terminal client for a hierarchical chat service.
//!
//! The crate covers the pure parts of the client: nested selection lists
//! with focus/selection bookkeeping, a per-channel conversation store with
//! a bidirectional pagination state machine, viewport windowing for fixed-
//! and variable-height content, the background task worker's control state,
//! and the serializable snapshot of the whole tree.  Terminal and network
//! I/O live outside the library and talk to it through plain values.

pub mod ansi;
pub mod categories;
pub mod channels;
pub mod colors;
pub mod file;
pub mod format;
pub mod input;
pub mod message;
pub mod messages;
pub mod render;
pub mod save;
pub mod selection;
pub mod servers;
pub mod task;
pub mod text;
pub mod textbox;
pub mod viewport;
