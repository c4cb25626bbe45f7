//! Core of a screenshot-annotation editor: the annotation model, the
//! undo/redo history, the pointer-driven canvas state machine, and the
//! compositor that flattens annotations over the captured image.
//!
//! All geometry is kept in fixed-point integers so that every rule of the
//! editor can be stated and checked exactly:
//!
//! - image-space and surface-space coordinates are in milli-pixels
//!   (1 pixel = 1000 units);
//! - the view scale is in micro-units (a scale of 1.0 = 1_000_000);
//! - colors are RGBA with channels in milli-units (1.0 = 1000).
//!
//! Rendering itself (anti-aliased strokes, the base raster) is the job of a
//! graphics backend outside this crate; the library produces the exact
//! stream of drawing operations the backend must perform.

pub mod annotations;
pub mod canvas;
pub mod capture;
pub mod config;
pub mod history;
pub mod tools;
