//! Render targets: one shared capability contract over two variants.
//!
//! A presentable target (`SwapchainTarget`) draws into a host-managed
//! swapchain for on-screen display; an offscreen target
//! (`TextureTarget`) draws into a texture backed by a host-readable
//! staging buffer for headless capture. The renderer depends only on
//! the `RenderTarget` contract, so one draw path serves both. This
//! module tracks the sizes, formats, and copy layouts the variants
//! promise; allocating the actual device resources is host-side work
//! that consumes these values.

use vstd::prelude::*;
use crate::vertex::DIM_MAX;

verus! {

/// The fixed pixel format of each target variant: a
/// presentation-compatible format for the swapchain, a capture-friendly
/// sRGB format for offscreen capture. Not user-configurable.
#[derive(Clone, Copy, Debug, PartialEq, Eq, Structural)]
pub enum PixelFormat {
    Bgra8Unorm,
    Rgba8UnormSrgb,
}

/// Layout of the copy an offscreen target appends after the draw: the
/// rendered texture is copied row by row into the staging buffer, four
/// bytes per pixel.
#[derive(Clone, Copy, Debug, PartialEq, Eq, Structural)]
pub struct CopyPlan {
    pub bytes_per_row: u32,
    pub rows_per_image: u32,
    pub width: u32,
    pub height: u32,
}

/// A GPU-writable color target for one frame. `create` must be safe to
/// call repeatedly (it is called on every resize); after it, the target
/// reports the size it was created with.
pub trait RenderTarget: Sized {
    /// Whether this target owns a host surface for adapter negotiation.
    spec fn spec_has_surface(&self) -> bool;

    /// The size the backing resources were last created with.
    spec fn spec_size(&self) -> Option<(u32, u32)>;

    /// The fixed pixel format of this variant.
    spec fn spec_format(&self) -> PixelFormat;

    /// Variant-internal consistency (for the offscreen target: the
    /// staging buffer is sized to the texture).
    spec fn spec_inv(&self) -> bool;

    /// The target-specific work appended after the draw: a copy into
    /// the staging buffer for offscreen capture, nothing for the
    /// swapchain.
    spec fn spec_post_copy(&self) -> Option<CopyPlan>;

    /// Whether a host surface exists to negotiate an adapter against.
    fn compatible_surface(&self) -> (r: bool)
        ensures
            r == self.spec_has_surface(),
    ;

    /// (Re)allocate the backing resources at `size`.
    fn create(&mut self, size: (u32, u32))
        requires
            1 <= size.0 <= DIM_MAX,
            1 <= size.1 <= DIM_MAX,
        ensures
            final(self).spec_size() == Some(size),
            final(self).spec_format() == old(self).spec_format(),
            final(self).spec_has_surface() == old(self).spec_has_surface(),
            final(self).spec_inv(),
    ;

    /// The pixel format; the target must have been created.
    fn format(&self) -> (r: PixelFormat)
        requires
            self.spec_size() is Some,
        ensures
            r == self.spec_format(),
    ;

    /// The post-draw commands for this frame.
    fn on_render(&self) -> (r: Option<CopyPlan>)
        requires
            self.spec_size() is Some,
            self.spec_inv(),
        ensures
            r == self.spec_post_copy(),
    ;
}

/// On-screen target: a host surface with a recreatable swapchain in a
/// presentation-compatible format.
#[derive(Clone, Copy, Debug, PartialEq, Eq)]
pub struct SwapchainTarget {
    pub format: PixelFormat,
    pub size: Option<(u32, u32)>,
}

impl SwapchainTarget {
    /// A swapchain target over a host surface, in the given format; no
    /// swapchain exists until `create`.
    pub fn new(format: PixelFormat) -> (r: SwapchainTarget)
        ensures
            r.format == format,
            r.size is None,
    {
        SwapchainTarget { format, size: None }
    }
}

impl RenderTarget for SwapchainTarget {
    open spec fn spec_has_surface(&self) -> bool {
        true
    }

    open spec fn spec_size(&self) -> Option<(u32, u32)> {
        self.size
    }

    open spec fn spec_format(&self) -> PixelFormat {
        self.format
    }

    open spec fn spec_inv(&self) -> bool {
        true
    }

    open spec fn spec_post_copy(&self) -> Option<CopyPlan> {
        None
    }

    fn compatible_surface(&self) -> (r: bool) {
        true
    }

    fn create(&mut self, size: (u32, u32)) {
        self.size = Some(size);
    }

    fn format(&self) -> (r: PixelFormat) {
        self.format
    }

    fn on_render(&self) -> (r: Option<CopyPlan>) {
        None
    }
}

/// Offscreen target: a texture plus a host-readable staging buffer
/// sized to it, four bytes per pixel, in a capture-friendly format.
#[derive(Clone, Copy, Debug, PartialEq, Eq)]
pub struct TextureTarget {
    pub size: Option<(u32, u32)>,
    pub buffer_size: Option<u64>,
}

impl TextureTarget {
    /// An offscreen target with no backing resources yet.
    pub fn new() -> (r: TextureTarget)
        ensures
            r.size is None,
            r.buffer_size is None,
            r.spec_inv(),
    {
        TextureTarget { size: None, buffer_size: None }
    }
}

impl RenderTarget for TextureTarget {
    open spec fn spec_has_surface(&self) -> bool {
        false
    }

    open spec fn spec_size(&self) -> Option<(u32, u32)> {
        self.size
    }

    open spec fn spec_format(&self) -> PixelFormat {
        PixelFormat::Rgba8UnormSrgb
    }

    open spec fn spec_inv(&self) -> bool {
        match (self.size, self.buffer_size) {
            (Some(s), Some(b)) => b == 4 * s.0 * s.1 && 1 <= s.0 <= DIM_MAX && 1 <= s.1 <= DIM_MAX,
            (None, None) => true,
            _ => false,
        }
    }

    open spec fn spec_post_copy(&self) -> Option<CopyPlan> {
        match self.size {
            Some(s) => Some(
                CopyPlan {
                    bytes_per_row: (4 * s.0) as u32,
                    rows_per_image: s.1,
                    width: s.0,
                    height: s.1,
                },
            ),
            None => None,
        }
    }

    fn compatible_surface(&self) -> (r: bool) {
        false
    }

    fn create(&mut self, size: (u32, u32)) {
        proof {
            assert(4 * (size.0 as int) * (size.1 as int) <= 0x1000_0000) by (nonlinear_arith)
                requires
                    1 <= size.0 as int <= 8192,
                    1 <= size.1 as int <= 8192,
            ;
        }
        let bytes: u64 = 4 * (size.0 as u64) * (size.1 as u64);
        self.size = Some(size);
        self.buffer_size = Some(bytes);
    }

    fn format(&self) -> (r: PixelFormat) {
        PixelFormat::Rgba8UnormSrgb
    }

    fn on_render(&self) -> (r: Option<CopyPlan>) {
        match self.size {
            Some(s) => Some(
                CopyPlan {
                    bytes_per_row: 4 * s.0,
                    rows_per_image: s.1,
                    width: s.0,
                    height: s.1,
                },
            ),
            None => None,
        }
    }
}

} // verus!
