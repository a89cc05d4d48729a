//! Logic of a small monochrome display that shows a live progress indicator.
//!
//! The crate holds the decisions of the firmware and none of its hardware
//! access. A driver performs the actions that the two tasks hand out and, for
//! the render task, reports back how each one ended.
//!
//! - [`ratio`]: exact fractions below one.
//! - [`progressbar`]: the outline and the fill of the bar as rectangles.
//! - [`decimal`]: decimal notation.
//! - [`text`]: the bounded text buffer that shows the counter.
//! - [`frame`]: the frame counter and what each frame shows.
//! - [`render`]: the render task, which fails fast into a watchdog reset.
//! - [`trace`]: what holds of whole runs of the render task.
//! - [`liveness`]: the liveness task and its timing against the watchdog.

pub mod ratio;
pub mod progressbar;
pub mod decimal;
pub mod text;
pub mod frame;
pub mod render;
pub mod trace;
pub mod liveness;
