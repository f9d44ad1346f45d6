//! Shared device-level values: screen regions, colors, and the identifiers
//! the display controller understands.

use vstd::prelude::*;

verus! {

/// Width of the device screen in pixels.
pub const DISPLAYWIDTH: u32 = 1404;

/// Height of the device screen in pixels.
pub const DISPLAYHEIGHT: u32 = 1872;

/// Update mode identifier for a partial repaint.
pub const UPDATE_MODE_PARTIAL: u32 = 0;

/// Update mode identifier for a full-screen repaint.
pub const UPDATE_MODE_FULL: u32 = 1;

/// Request flag asking the controller to only test for a collision with
/// in-flight updates instead of committing the repaint.
pub const EPDC_FLAG_TEST_COLLISION: u32 = 0x200;

/// Waveform identifier for the fast, low-quality direct-update drive pattern.
pub const WAVEFORM_MODE_DU: u32 = 1;

/// Temperature identifier selecting the controller's drawing profile.
pub const TEMP_USE_REMARKABLE_DRAW: i32 = 0x0018;

/// Dither mode identifier that passes pixel values through unchanged.
pub const DITHERING_PASSTHROUGH: i32 = 0;

/// A screen region in device pixel units.
#[derive(Clone, Copy, Debug, PartialEq, Eq, Structural)]
pub struct MxcfbRect {
    pub top: u32,
    pub left: u32,
    pub width: u32,
    pub height: u32,
}

/// A pixel color as the drawing collaborator understands it.
#[derive(Clone, Copy, Debug, PartialEq, Eq, Structural)]
pub enum Color {
    Black,
    Gray(u8),
    White,
    Rgb(u8, u8, u8),
}

} // verus!
