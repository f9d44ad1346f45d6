//! The element redraw coordinator: per-element bookkeeping of the last
//! drawn rectangle, and the decisions a redraw makes around the external
//! pixel-drawing collaborator and the pointer active-region table.
//!
//! A redraw proceeds in order: the previously drawn region, if any, is
//! filled with [`CLEAR_COLOR`] and — unless the redraw lands at the same
//! origin — refreshed through the dispatcher ([`UIElementWrapper::clear_region`],
//! [`UIElementWrapper::refresh_cleared`]); the drawing collaborator is then
//! invoked as [`UIElementWrapper::render_command`] says and returns the
//! rectangle it touched; the active-region table is reconciled
//! ([`UIElementWrapper::region_update_needed`],
//! [`UIElementWrapper::region_remove_point`], [`region_create_rect`]); and
//! the element records the new rectangle ([`UIElementWrapper::record_drawn`]).

use vstd::prelude::*;

use crate::common::{Color, MxcfbRect, DITHERING_PASSTHROUGH, TEMP_USE_REMARKABLE_DRAW,
    WAVEFORM_MODE_DU};
use crate::refresh::{region_in_bounds, spec_partial_request, Framebuffer, PartialRefreshMode,
    UpdateRequest};

verus! {

/// Declares `image::DynamicImage` so an element can carry the decoded image
/// it renders.  Nothing of the value is read here: it is handed back, by
/// reference, to the external pixel-drawing collaborator.
#[verifier::external_type_specification]
#[verifier::external_body]
pub struct ExDynamicImage(image::DynamicImage);

/// The color the previously drawn region is filled with before a redraw.
pub const CLEAR_COLOR: Color = Color::White;

/// Whether the drawing collaborator should refresh what it drew.
#[derive(Clone, Copy, Debug, PartialEq, Eq, Structural)]
pub enum UIConstraintRefresh {
    NoRefresh,
    Refresh,
    RefreshAndWait,
}

impl Default for UIConstraintRefresh {
    fn default() -> (r: UIConstraintRefresh)
        ensures
            r is Refresh,
    {
        UIConstraintRefresh::Refresh
    }
}

/// What an element shows: text, a decoded image, or nothing yet.
pub enum UIElement {
    Text { text: String, scale: usize, foreground: Color },
    Image { img: image::DynamicImage },
    Unspecified,
}

impl Default for UIElement {
    fn default() -> (r: UIElement)
        ensures
            r is Unspecified,
    {
        UIElement::Unspecified
    }
}

/// A positioned on-screen element.  Its redraw state is `last_drawn_rect`:
/// `None` until a first successful draw, then the rectangle the drawing
/// collaborator last reported.
pub struct UIElementWrapper {
    pub y: usize,
    pub x: usize,
    pub refresh: UIConstraintRefresh,
    pub last_drawn_rect: Option<MxcfbRect>,
    pub inner: UIElement,
}

impl Default for UIElementWrapper {
    fn default() -> (r: UIElementWrapper)
        ensures
            r.y == 0,
            r.x == 0,
            r.refresh is Refresh,
            r.last_drawn_rect is None,
            r.inner is Unspecified,
    {
        UIElementWrapper {
            y: 0,
            x: 0,
            refresh: UIConstraintRefresh::Refresh,
            last_drawn_rect: None,
            inner: UIElement::Unspecified,
        }
    }
}

/// Elements compare by position alone: two wrappers are the same element
/// when they sit at the same (x, y).
impl PartialEq for UIElementWrapper {
    fn eq(&self, other: &UIElementWrapper) -> bool {
        self.x == other.x && self.y == other.y
    }
}

impl vstd::std_specs::cmp::PartialEqSpecImpl for UIElementWrapper {
    open spec fn obeys_eq_spec() -> bool {
        true
    }

    open spec fn eq_spec(&self, other: &UIElementWrapper) -> bool {
        self.x == other.x && self.y == other.y
    }
}

impl Eq for UIElementWrapper {}

/// One invocation of the external pixel-drawing collaborator, which must
/// return the bounding rectangle it actually touched.
pub enum RenderCommand<'a> {
    Text {
        y: usize,
        x: usize,
        foreground: Color,
        scale: usize,
        text: &'a String,
        refresh: UIConstraintRefresh,
    },
    Image { img: &'a image::DynamicImage, y: usize, x: usize, refresh: UIConstraintRefresh },
    Skip,
}

impl UIElementWrapper {
    /// Whether the region cleared in the first redraw step must itself be
    /// refreshed before new content is drawn: only when the old rectangle's
    /// origin differs from the element's position on both axes.  Sharing
    /// either axis skips the refresh — a heuristic that avoids a visible
    /// blank flash when a redraw lands in exactly the same place.
    pub open spec fn spec_stale_refresh_needed(self) -> bool {
        match self.last_drawn_rect {
            Some(old_rect) => old_rect.top as usize != self.y && old_rect.left as usize != self.x,
            None => false,
        }
    }

    /// Whether the active-region table needs reconciling after a draw that
    /// produced `drawn`: only when a handler was supplied and the rectangle
    /// changed by value (with no previous rectangle, any result counts as a
    /// change).
    pub open spec fn spec_region_update_needed(
        self,
        drawn: MxcfbRect,
        handler_supplied: bool,
    ) -> bool {
        handler_supplied && self.last_drawn_rect != Some(drawn)
    }

    /// First redraw step: the previously drawn region, to be filled with
    /// [`CLEAR_COLOR`]; nothing when the element was never drawn.
    pub fn clear_region(&self) -> (r: Option<MxcfbRect>)
        ensures
            r == self.last_drawn_rect,
    {
        self.last_drawn_rect
    }

    /// Dispatch a blocking refresh of the just-cleared old region, with the
    /// fast draw waveform and pass-through dithering, so the clear is
    /// visible before the new content lands elsewhere.  Skipped when the
    /// redraw shares an origin axis with the old rectangle, or when nothing
    /// was drawn before; an out-of-bounds old rectangle is dropped by the
    /// dispatcher itself.
    pub fn refresh_cleared(&self, fb: &mut Framebuffer) -> (r: Option<UpdateRequest>)
        requires
            old(fb).marker < u32::MAX,
        ensures
            !self.spec_stale_refresh_needed() ==> r is None && *final(fb) == *old(fb),
            self.spec_stale_refresh_needed() && !region_in_bounds(self.last_drawn_rect->0)
                ==> r is None && *final(fb) == *old(fb),
            self.spec_stale_refresh_needed() && region_in_bounds(self.last_drawn_rect->0) ==> r
                == Some(
                spec_partial_request(
                    *old(fb),
                    self.last_drawn_rect->0,
                    PartialRefreshMode::Wait,
                    WAVEFORM_MODE_DU,
                    TEMP_USE_REMARKABLE_DRAW,
                    DITHERING_PASSTHROUGH,
                    0,
                ),
            ) && *final(fb) == old(fb).after_dispatch(),
    {
        match &self.last_drawn_rect {
            Some(old_rect) => {
                if old_rect.top as usize != self.y && old_rect.left as usize != self.x {
                    fb.partial_refresh(
                        old_rect,
                        PartialRefreshMode::Wait,
                        WAVEFORM_MODE_DU,
                        TEMP_USE_REMARKABLE_DRAW,
                        DITHERING_PASSTHROUGH,
                        0,
                    )
                } else {
                    None
                }
            },
            None => None,
        }
    }

    /// Second redraw step: what the drawing collaborator is asked to render
    /// at the element's position — nothing at all for an unspecified
    /// element, which leaves every piece of state untouched.
    pub fn render_command<'a>(&'a self) -> (r: RenderCommand<'a>)
        ensures
            (match self.inner {
                UIElement::Text { text, scale, foreground } => r matches RenderCommand::Text {
                    y,
                    x,
                    foreground: fg,
                    scale: sc,
                    text: t,
                    refresh,
                } && y == self.y && x == self.x && fg == foreground && sc == scale && *t == text
                    && refresh == self.refresh,
                UIElement::Image { img } => r matches RenderCommand::Image {
                    img: i,
                    y,
                    x,
                    refresh,
                } && y == self.y && x == self.x && *i == img && refresh == self.refresh,
                UIElement::Unspecified => r is Skip,
            }),
    {
        match &self.inner {
            UIElement::Text { text, scale, foreground } => RenderCommand::Text {
                y: self.y,
                x: self.x,
                foreground: *foreground,
                scale: *scale,
                text,
                refresh: self.refresh,
            },
            UIElement::Image { img } => RenderCommand::Image {
                img,
                y: self.y,
                x: self.x,
                refresh: self.refresh,
            },
            UIElement::Unspecified => RenderCommand::Skip,
        }
    }

    /// Third redraw step: whether the active-region table must be touched
    /// at all for the freshly drawn rectangle.
    pub fn region_update_needed(&self, drawn: &MxcfbRect, handler_supplied: bool) -> (r: bool)
        ensures
            r == self.spec_region_update_needed(*drawn, handler_supplied),
    {
        if !handler_supplied {
            return false;
        }
        match &self.last_drawn_rect {
            Some(old_rect) => !(*old_rect == *drawn),
            None => true,
        }
    }

    /// When the table is reconciled, the entry anchored at the old
    /// rectangle's origin is removed first — skipped when nothing was drawn
    /// before.
    pub fn region_remove_point(&self) -> (r: Option<(u32, u32)>)
        ensures
            (match self.last_drawn_rect {
                Some(old_rect) => r == Some((old_rect.top, old_rect.left)),
                None => r is None,
            }),
    {
        match &self.last_drawn_rect {
            Some(old_rect) => Some((old_rect.top, old_rect.left)),
            None => None,
        }
    }

    /// Last redraw step: the element transitions to Drawn(`drawn`); position
    /// and content are untouched.
    pub fn record_drawn(&mut self, drawn: MxcfbRect)
        ensures
            final(self).last_drawn_rect == Some(drawn),
            final(self).y == old(self).y,
            final(self).x == old(self).x,
            final(self).refresh == old(self).refresh,
            final(self).inner == old(self).inner,
    {
        self.last_drawn_rect = Some(drawn);
    }
}

/// A new active region spanning the freshly drawn rectangle is created only
/// when no entry already sits at the element's position, so an element keeps
/// at most one entry for its current rectangle.
pub fn region_create_rect(drawn: &MxcfbRect, existing_at_point: bool) -> (r: Option<MxcfbRect>)
    ensures
        existing_at_point ==> r is None,
        !existing_at_point ==> r == Some(*drawn),
{
    if existing_at_point {
        None
    } else {
        Some(*drawn)
    }
}

/// Law: once a draw has recorded rectangle `drawn`, an immediately repeated
/// draw whose collaborator reports the same rectangle needs no active-region
/// change — with unchanged content and no refresh between the calls, the
/// second draw leaves the table exactly as the first left it.
pub proof fn lemma_redraw_same_rect_changes_no_region(
    elem: UIElementWrapper,
    drawn: MxcfbRect,
    handler_supplied: bool,
)
    requires
        elem.last_drawn_rect == Some(drawn),
    ensures
        !elem.spec_region_update_needed(drawn, handler_supplied),
{
}

/// Law: a redraw whose previous rectangle shares its origin with the
/// element's position on either axis triggers no refresh of the cleared
/// region — in particular a redraw landing in exactly the same place shows
/// no blank flash.
pub proof fn lemma_same_origin_skips_stale_refresh(elem: UIElementWrapper)
    requires
        elem.last_drawn_rect matches Some(old_rect) && (old_rect.top as usize == elem.y
            || old_rect.left as usize == elem.x),
    ensures
        !elem.spec_stale_refresh_needed(),
{
}

} // verus!
