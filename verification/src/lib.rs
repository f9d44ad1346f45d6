//! Refresh orchestration for an electrophoretic (e-ink) display.
//!
//! The display hardware repaints asynchronously: every repaint is dispatched
//! with a monotonically increasing marker and may later be waited on or
//! tested for collision with still-in-flight updates.  This crate holds the
//! verified core of that protocol: the refresh dispatcher, which clamps
//! regions against the device bounds and allocates markers, and the element
//! redraw coordinator, which decides what to clear, what to render and how
//! to reconcile the pointer active-region table.  The device control calls
//! themselves, and the pixel-drawing collaborator, live outside this crate;
//! they consume the requests and decisions produced here.

pub mod common;
pub mod element;
pub mod refresh;
