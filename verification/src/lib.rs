//! Navigation and view-state engine for a terminal music-player front end.
//!
//! The crate models the interactive parts of the interface that carry real
//! invariants: cursor/viewport tracking over ordered lists, a drill-down
//! navigation stack with per-level selection and filtering, and the layered
//! input-routing state machine that decides which part of the interface
//! consumes each input event. Terminal drawing and the player connection
//! are left to the host application; the library works on plain snapshots
//! of their data.

pub mod browser;
pub mod directories;
pub mod dirstack;
pub mod queue_pane;
pub mod search;
pub mod shared;
pub mod ui;
