//! Input-and-navigation core of a small graphical front panel.
//!
//! The crate turns raw samples of momentary switches into clean press and
//! release events, drives a cyclic menu selection from them, and computes the
//! minimal list of drawing operations that keeps the selection indicator on
//! screen in step with the model. It performs no I/O itself: callers sample
//! the input lines, wait out the settle window and carry out the drawing
//! operations that the crate hands back.

pub mod debounce;
pub mod geometry;
pub mod menu;
pub mod cursor;
pub mod controller;
pub mod laws;

pub use crate::debounce::{Button, Event, Sample, Wiring, SETTLE_MS};
pub use crate::geometry::Point;
pub use crate::menu::{MenuItem, MenuModel, MenuView};

pub use crate::cursor::{full_redraw, repaint_ops, sync, DrawOp};
pub use crate::controller::{ControllerView, Input, MenuController, Mode, Reaction};
