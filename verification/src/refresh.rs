//! The refresh dispatcher: allocates markers, clamps regions against the
//! device bounds and builds the update requests that the device control
//! surface sends to the hardware.
//!
//! The control calls themselves block or fail outside this crate; the
//! dispatcher decides what is sent, with which marker, and how the value a
//! caller sees is derived from the device's answer.

use vstd::prelude::*;

use crate::common::{
    MxcfbRect, DISPLAYHEIGHT, DISPLAYWIDTH, EPDC_FLAG_TEST_COLLISION, UPDATE_MODE_FULL,
    UPDATE_MODE_PARTIAL,
};

verus! {

/// The minimum height/width enforced before a partial update is dispatched.
/// The higher it is, the more likely two updates are to collide; the smaller
/// it is, the more likely the display is to show artifacts.
pub const MIN_SEND_UPDATE_DIMENSION_PX: u32 = 32;

/// How a partial refresh synchronizes with the device.
#[derive(Clone, Copy, Debug, PartialEq, Eq, Structural)]
pub enum PartialRefreshMode {
    DryRun,
    Async,
    Wait,
}

/// One update request, ready to be sent to the device control surface.
#[derive(Clone, Copy, Debug, PartialEq, Eq, Structural)]
pub struct UpdateRequest {
    pub update_mode: u32,
    pub update_marker: u32,
    pub waveform_mode: u32,
    pub temp: i32,
    pub flags: u32,
    pub quant_bit: i32,
    pub dither_mode: i32,
    pub update_region: MxcfbRect,
}

/// The dispatcher's own state: the marker counter and the screen size
/// reported by the device.
#[derive(Clone, Copy, Debug, PartialEq, Eq, Structural)]
pub struct Framebuffer {
    pub marker: u32,
    pub xres: u32,
    pub yres: u32,
}

/// Whether a region's origin lies on the screen at all.  A request whose
/// origin is already out of bounds is dropped without a device call.
pub open spec fn region_in_bounds(region: MxcfbRect) -> bool {
    region.left < DISPLAYWIDTH && region.top < DISPLAYHEIGHT
}

/// The region actually dispatched for an in-bounds request: width and height
/// are raised to the enforced minimum, then cut back so the region never
/// crosses the opposite device edge.
pub open spec fn spec_clamped_region(region: MxcfbRect) -> MxcfbRect {
    let min_width = if region.width < MIN_SEND_UPDATE_DIMENSION_PX {
        MIN_SEND_UPDATE_DIMENSION_PX
    } else {
        region.width
    };
    let min_height = if region.height < MIN_SEND_UPDATE_DIMENSION_PX {
        MIN_SEND_UPDATE_DIMENSION_PX
    } else {
        region.height
    };
    let width = if region.left + min_width > DISPLAYWIDTH {
        (DISPLAYWIDTH - region.left) as u32
    } else {
        min_width
    };
    let height = if region.top + min_height > DISPLAYHEIGHT {
        (DISPLAYHEIGHT - region.top) as u32
    } else {
        min_height
    };
    MxcfbRect { top: region.top, left: region.left, width, height }
}

/// The partial update request dispatched from state `fb` for an in-bounds
/// `region`: partial mode, the next marker, the clamped region, and the
/// collision-test flag exactly when the dispatch is a dry run.
pub open spec fn spec_partial_request(
    fb: Framebuffer,
    region: MxcfbRect,
    mode: PartialRefreshMode,
    waveform_mode: u32,
    temperature: i32,
    dither_mode: i32,
    quant_bit: i32,
) -> UpdateRequest {
    UpdateRequest {
        update_mode: UPDATE_MODE_PARTIAL,
        update_marker: fb.next_marker(),
        waveform_mode,
        temp: temperature,
        flags: if mode is DryRun {
            EPDC_FLAG_TEST_COLLISION
        } else {
            0u32
        },
        quant_bit,
        dither_mode,
        update_region: spec_clamped_region(region),
    }
}

impl Framebuffer {
    /// The marker that the next dispatched request will carry.
    pub open spec fn next_marker(self) -> u32 {
        self.marker
    }

    /// The dispatcher state after one request has been dispatched: the
    /// marker counter has advanced, so the value just used is never reused.
    pub open spec fn after_dispatch(self) -> Framebuffer {
        Framebuffer { marker: (self.marker + 1) as u32, xres: self.xres, yres: self.yres }
    }

    /// A fresh dispatcher for a screen of the given size.  Marker 0 is the
    /// neutral value returned for dropped requests, so real markers start
    /// at 1.
    pub fn new(xres: u32, yres: u32) -> (r: Framebuffer)
        ensures
            r.marker == 1,
            r.xres == xres,
            r.yres == yres,
    {
        Framebuffer { marker: 1, xres, yres }
    }

    /// Build a full-screen refresh request and advance the marker counter.
    /// The request always carries the marker that was current on entry, so
    /// the caller can wait on it later even when it does not block now.
    pub fn full_refresh(
        &mut self,
        waveform_mode: u32,
        temperature: i32,
        dither_mode: i32,
        quant_bit: i32,
    ) -> (r: UpdateRequest)
        requires
            old(self).marker < u32::MAX,
        ensures
            r == (UpdateRequest {
                update_mode: UPDATE_MODE_FULL,
                update_marker: old(self).next_marker(),
                waveform_mode,
                temp: temperature,
                flags: 0,
                quant_bit,
                dither_mode,
                update_region: MxcfbRect {
                    top: 0,
                    left: 0,
                    width: old(self).xres,
                    height: old(self).yres,
                },
            }),
            *final(self) == old(self).after_dispatch(),
    {
        let screen = MxcfbRect { top: 0, left: 0, width: self.xres, height: self.yres };
        let request = UpdateRequest {
            update_mode: UPDATE_MODE_FULL,
            update_marker: self.marker,
            waveform_mode,
            temp: temperature,
            flags: 0,
            quant_bit,
            dither_mode,
            update_region: screen,
        };
        self.marker = self.marker + 1;
        request
    }

    /// Build a partial refresh request for `region` and advance the marker
    /// counter.  A region whose origin is out of bounds is dropped: nothing
    /// is returned, no marker is consumed and no device call may be made.
    /// Otherwise the dispatched region is the clamped one, and the request
    /// carries the collision-test flag exactly in `DryRun` mode.
    pub fn partial_refresh(
        &mut self,
        region: &MxcfbRect,
        mode: PartialRefreshMode,
        waveform_mode: u32,
        temperature: i32,
        dither_mode: i32,
        quant_bit: i32,
    ) -> (r: Option<UpdateRequest>)
        requires
            old(self).marker < u32::MAX,
        ensures
            !region_in_bounds(*region) ==> r is None && *final(self) == *old(self),
            region_in_bounds(*region) ==> r == Some(
                spec_partial_request(
                    *old(self),
                    *region,
                    mode,
                    waveform_mode,
                    temperature,
                    dither_mode,
                    quant_bit,
                ),
            ) && *final(self) == old(self).after_dispatch(),
    {
        if region.left >= DISPLAYWIDTH || region.top >= DISPLAYHEIGHT {
            return None;
        }

        let update_region = clamp_region(region);

        let flags = match mode {
            PartialRefreshMode::DryRun => EPDC_FLAG_TEST_COLLISION,
            _ => 0,
        };

        let request = UpdateRequest {
            update_mode: UPDATE_MODE_PARTIAL,
            update_marker: self.marker,
            waveform_mode,
            temp: temperature,
            flags,
            quant_bit,
            dither_mode,
            update_region,
        };
        self.marker = self.marker + 1;
        Some(request)
    }
}

/// Clamp an in-bounds region as `spec_clamped_region` describes.
fn clamp_region(region: &MxcfbRect) -> (r: MxcfbRect)
    requires
        region_in_bounds(*region),
    ensures
        r == spec_clamped_region(*region),
{
    let mut width = if region.width < MIN_SEND_UPDATE_DIMENSION_PX {
        MIN_SEND_UPDATE_DIMENSION_PX
    } else {
        region.width
    };
    let mut height = if region.height < MIN_SEND_UPDATE_DIMENSION_PX {
        MIN_SEND_UPDATE_DIMENSION_PX
    } else {
        region.height
    };

    // Never refresh past the right or bottom device edge.
    if width > DISPLAYWIDTH - region.left {
        width = DISPLAYWIDTH - region.left;
    }
    if height > DISPLAYHEIGHT - region.top {
        height = DISPLAYHEIGHT - region.top;
    }

    MxcfbRect { top: region.top, left: region.left, width, height }
}

/// The collision flag a caller sees once a blocking wait has ended.  A
/// failed wait call is non-fatal: it degrades to the neutral value 0, as if
/// no collision had been reported.
pub fn completion_collision(completion: Option<u32>) -> (r: u32)
    ensures
        completion is Some ==> r == completion->0,
        completion is None ==> r == 0,
{
    match completion {
        Some(collision_test) => collision_test,
        None => 0,
    }
}

/// The value `partial_refresh` hands back to its caller: `Async` returns the
/// dispatched marker without waiting; `Wait` and `DryRun` block for
/// completion and return the device's collision flag instead of the marker.
pub fn partial_refresh_result(
    mode: PartialRefreshMode,
    marker: u32,
    completion: Option<u32>,
) -> (r: u32)
    ensures
        mode is Async ==> r == marker,
        !(mode is Async) && completion is Some ==> r == completion->0,
        !(mode is Async) && completion is None ==> r == 0,
{
    match mode {
        PartialRefreshMode::Async => marker,
        PartialRefreshMode::Wait | PartialRefreshMode::DryRun => completion_collision(completion),
    }
}

/// Law: a dispatched region's width and height are each at least the
/// enforced minimum, unless raising an edge that far would overflow the
/// device edge, in which case that edge is clamped to exactly reach the
/// device boundary.
pub proof fn lemma_clamped_region_min_dimension(region: MxcfbRect)
    requires
        region_in_bounds(region),
    ensures
        spec_clamped_region(region).width >= MIN_SEND_UPDATE_DIMENSION_PX || region.left
            + spec_clamped_region(region).width == DISPLAYWIDTH,
        spec_clamped_region(region).height >= MIN_SEND_UPDATE_DIMENSION_PX || region.top
            + spec_clamped_region(region).height == DISPLAYHEIGHT,
{
}

/// Law: a dispatched region keeps the requested origin, never extends past
/// the device bounds, and never degenerates to an empty edge.
pub proof fn lemma_clamped_region_within_device(region: MxcfbRect)
    requires
        region_in_bounds(region),
    ensures
        spec_clamped_region(region).top == region.top,
        spec_clamped_region(region).left == region.left,
        spec_clamped_region(region).left + spec_clamped_region(region).width <= DISPLAYWIDTH,
        spec_clamped_region(region).top + spec_clamped_region(region).height <= DISPLAYHEIGHT,
        spec_clamped_region(region).width >= 1,
        spec_clamped_region(region).height >= 1,
{
}

/// Law: markers strictly increase across successive dispatches — the marker
/// the dispatcher would attach after one dispatch is strictly greater than
/// the one just used, so a marker value is never reused.
pub proof fn lemma_markers_strictly_increase(fb: Framebuffer)
    requires
        fb.marker < u32::MAX,
    ensures
        fb.after_dispatch().next_marker() > fb.next_marker(),
{
}

impl PartialRefreshMode {
    /// Whether a dispatch in this mode blocks until the device signals
    /// completion of the dispatched marker.
    pub fn waits_for_completion(&self) -> (r: bool)
        ensures
            r == !(*self is Async),
    {
        match self {
            PartialRefreshMode::Async => false,
            PartialRefreshMode::Wait | PartialRefreshMode::DryRun => true,
        }
    }
}

} // verus!
