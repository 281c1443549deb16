//! The renderer state machine.
//!
//! Once constructed (the host has negotiated a device and created the
//! fixed texture cache, pipeline, and buffers), the renderer is `Ready`
//! and either clean or dirty. Every mutator marks it dirty; `render`
//! is a no-op while clean, and while dirty it produces the frame plan —
//! the recomputed vertices, the fixed clear color and index count, and
//! the target's post-draw commands — and becomes clean. The host
//! executes the plan by uploading the vertices and submitting the draw.

use vstd::prelude::*;
use crate::render_target::{CopyPlan, RenderTarget};
use crate::transform::spec_apply;
use crate::vertex::{DIM_MAX, Quad, Vertex, spec_vertex_transform};
use crate::view_state::{POS_MAX, ViewState, Zoom, clamp_pan, clamp_zoom_delta, updated_mag};

verus! {

/// Width of the fixed-capacity texture cache that holds the displayed
/// image, in pixels.
pub const CACHE_WIDTH: u32 = 1024;

/// Height of the fixed-capacity texture cache, in pixels.
pub const CACHE_HEIGHT: u32 = 1024;

/// Validation error: the image does not fit the texture cache.
#[derive(Clone, Copy, Debug, PartialEq, Eq, Structural)]
pub enum TextureError {
    CapacityExceeded,
}

/// Layout of an image upload into the texture cache, at offset zero in
/// its top-left region: four bytes per pixel, row by row.
#[derive(Clone, Copy, Debug, PartialEq, Eq, Structural)]
pub struct TextureUpload {
    pub offset: u64,
    pub bytes_per_row: u32,
    pub rows_per_image: u32,
    pub width: u32,
    pub height: u32,
}

/// One frame of GPU work, produced by `render` while dirty: the four
/// recomputed vertices to upload, the indexed draw over six indices,
/// the fixed opaque-black clear color, and the target's post-draw copy.
#[derive(Debug)]
pub struct FramePlan {
    pub vertices: Vec<Vertex>,
    pub index_count: u32,
    pub clear_color: (u8, u8, u8, u8),
    pub post_copy: Option<CopyPlan>,
}

/// The renderer: the render target, the current viewport size, the
/// quad geometry, the view state, and the dirty flag.
pub struct State<T> {
    pub target: T,
    pub size: (u32, u32),
    pub quad: Quad,
    pub dirty: bool,
    pub view: ViewState,
}

/// What one `render` call does: the state is unchanged except that the
/// dirty flag is cleared; a plan is produced exactly when the state was
/// dirty, and the plan holds the four vertices computed from the
/// pre-state's quad and view, six indices, the opaque-black clear
/// color, and the target's post-draw commands.
pub open spec fn render_post<T: RenderTarget>(
    pre: State<T>,
    post: State<T>,
    r: Option<FramePlan>,
) -> bool {
    &&& post.target == pre.target
    &&& post.size == pre.size
    &&& post.quad == pre.quad
    &&& post.view == pre.view
    &&& post.dirty == false
    &&& r is Some <==> pre.dirty
    &&& match r {
        Some(p) => {
            &&& p.vertices@.len() == 4
            &&& forall|i: int|
                0 <= i < 4 ==> {
                    let q = spec_apply(
                        spec_vertex_transform(pre.quad, pre.view),
                        pre.quad.vertices@[i].position.0@,
                        pre.quad.vertices@[i].position.1@,
                    );
                    &&& (#[trigger] p.vertices@[i]).position.0@ == q.0
                    &&& p.vertices@[i].position.1@ == q.1
                    &&& p.vertices@[i].tex_coords == pre.quad.vertices@[i].tex_coords
                }
            &&& p.index_count == 6
            &&& p.clear_color == (0u8, 0u8, 0u8, 255u8)
            &&& p.post_copy == pre.target.spec_post_copy()
        },
        None => true,
    }
}

impl<T: RenderTarget> State<T> {
    pub open spec fn wf(self) -> bool {
        &&& self.quad.wf()
        &&& self.view.wf()
        &&& self.target.spec_size() == Some(self.size)
        &&& self.target.spec_inv()
        &&& self.quad.viewport_size == self.size
    }

    /// Construct the renderer over an already-negotiated device: size
    /// the target and the quad to the initial viewport and start dirty,
    /// so the first `render` draws.
    pub fn new(size: (u32, u32), target: T) -> (r: State<T>)
        requires
            1 <= size.0 <= DIM_MAX,
            1 <= size.1 <= DIM_MAX,
        ensures
            r.wf(),
            r.dirty == true,
            r.size == size,
            r.target.spec_size() == Some(size),
            r.target.spec_format() == target.spec_format(),
            r.view == (ViewState { zoom: Zoom::Fit(crate::view_state::MAG_ONE), pos: (0i64, 0i64), anchor: None }),
            r.quad.image_size == (1u32, 1u32),
            r.quad.texture_size == (1u32, 1u32),
    {
        let mut target = target;
        target.create(size);
        State { target, size, quad: Quad::with_init(size), dirty: true, view: ViewState::new() }
    }

    /// Recreate the target's backing resources and the quad's
    /// clip-to-pixel transform at the new size, and mark dirty.
    pub fn resize(&mut self, new_size: (u32, u32))
        requires
            old(self).wf(),
            1 <= new_size.0 <= DIM_MAX,
            1 <= new_size.1 <= DIM_MAX,
        ensures
            final(self).size == new_size,
            final(self).target.spec_size() == Some(new_size),
            final(self).dirty == true,
            final(self).view == old(self).view,
            final(self).quad.viewport_size == new_size,
            final(self).quad.image_size == old(self).quad.image_size,
            final(self).quad.texture_size == old(self).quad.texture_size,
            final(self).quad.vertices == old(self).quad.vertices,
            final(self).wf(),
    {
        self.size = new_size;
        self.target.create(new_size);
        self.quad.set_viewport_size(new_size);
        self.dirty = true;
    }

    /// Cheap to call every tick: a no-op while clean. While dirty,
    /// produce this frame's plan and become clean.
    pub fn render(&mut self) -> (r: Option<FramePlan>)
        requires
            old(self).wf(),
        ensures
            render_post(*old(self), *final(self), r),
            final(self).wf(),
    {
        if !self.dirty {
            return None;
        }
        let vertices = self.quad.get_vertex(&self.view);
        let post_copy = self.target.on_render();
        self.dirty = false;
        Some(FramePlan { vertices, index_count: 6, clear_color: (0, 0, 0, 255), post_copy })
    }

    /// Forward a drag update to the view state and mark dirty.
    pub fn update_position(&mut self, pos: (i64, i64))
        requires
            old(self).wf(),
            -POS_MAX <= pos.0 <= POS_MAX,
            -POS_MAX <= pos.1 <= POS_MAX,
        ensures
            final(self).target == old(self).target,
            final(self).size == old(self).size,
            final(self).quad == old(self).quad,
            final(self).dirty == true,
            final(self).view.anchor == Some(pos),
            final(self).view.zoom == old(self).view.zoom,
            match old(self).view.anchor {
                None => final(self).view.pos == old(self).view.pos,
                Some(a) => {
                    &&& final(self).view.pos.0 == clamp_pan(old(self).view.pos.0 + pos.0 - a.0)
                    &&& final(self).view.pos.1 == clamp_pan(old(self).view.pos.1 + pos.1 - a.1)
                },
            },
            final(self).wf(),
    {
        self.view.set_position(pos);
        self.dirty = true;
    }

    /// Forward a zoom-drag update to the view state and mark dirty.
    pub fn update_zoom(&mut self, pos: (i64, i64))
        requires
            old(self).wf(),
            -POS_MAX <= pos.0 <= POS_MAX,
            -POS_MAX <= pos.1 <= POS_MAX,
        ensures
            final(self).target == old(self).target,
            final(self).size == old(self).size,
            final(self).quad == old(self).quad,
            final(self).dirty == true,
            final(self).view.anchor == Some(pos),
            final(self).view.pos == old(self).view.pos,
            final(self).view.zoom is Fit <==> old(self).view.zoom is Fit,
            match old(self).view.anchor {
                None => final(self).view.zoom == old(self).view.zoom,
                Some(a) => final(self).view.zoom.mag() == updated_mag(
                    old(self).view.zoom.mag() as int,
                    256 - clamp_zoom_delta(pos.1 - a.1),
                    256,
                ),
            },
            final(self).wf(),
    {
        self.view.set_zoom(pos);
        self.dirty = true;
    }

    /// End the current gesture and mark dirty.
    pub fn clear_anchor(&mut self)
        requires
            old(self).wf(),
        ensures
            final(self).target == old(self).target,
            final(self).size == old(self).size,
            final(self).quad == old(self).quad,
            final(self).dirty == true,
            final(self).view.anchor is None,
            final(self).view.zoom == old(self).view.zoom,
            final(self).view.pos == old(self).view.pos,
            final(self).wf(),
    {
        self.view.clear_anchor();
        self.dirty = true;
    }

    /// Validate a decoded RGBA image against the cache capacity. If it
    /// fits, retarget the quad's geometry and texture coordinates at it
    /// and return the upload layout; if not, reject it and leave every
    /// part of the state unchanged.
    pub fn swap_image(&mut self, pixels: &Vec<u8>, dims: (u32, u32)) -> (r: Result<
        TextureUpload,
        TextureError,
    >)
        requires
            old(self).wf(),
            1 <= dims.0,
            1 <= dims.1,
            pixels@.len() == 4 * dims.0 * dims.1,
        ensures
            r is Err <==> dims.0 > CACHE_WIDTH || dims.1 > CACHE_HEIGHT,
            match r {
                Err(e) => e == TextureError::CapacityExceeded && *final(self) == *old(self),
                Ok(u) => {
                    &&& u.offset == 0
                    &&& u.bytes_per_row == 4 * dims.0
                    &&& u.rows_per_image == dims.1
                    &&& u.width == dims.0
                    &&& u.height == dims.1
                    &&& final(self).dirty == true
                    &&& final(self).quad.image_size == dims
                    &&& final(self).quad.texture_size == (CACHE_WIDTH, CACHE_HEIGHT)
                    &&& final(self).quad.viewport_size == old(self).quad.viewport_size
                    &&& final(self).target == old(self).target
                    &&& final(self).size == old(self).size
                    &&& final(self).view == old(self).view
                },
            },
            final(self).wf(),
    {
        if dims.0 > CACHE_WIDTH || dims.1 > CACHE_HEIGHT {
            return Err(TextureError::CapacityExceeded);
        }
        self.quad.map_texture_coords(dims, (CACHE_WIDTH, CACHE_HEIGHT));
        self.dirty = true;
        Ok(
            TextureUpload {
                offset: 0,
                bytes_per_row: 4 * dims.0,
                rows_per_image: dims.1,
                width: dims.0,
                height: dims.1,
            },
        )
    }

    /// Whether presentation state is stale: a render is required
    /// before the next display.
    pub fn is_dirty(&self) -> (r: bool)
        ensures
            r == self.dirty,
    {
        self.dirty
    }
}

/// Rendering is idempotent: of two consecutive `render` calls with no
/// mutator in between, only the first can produce a frame plan (it
/// does exactly when the state was dirty), the second never does, and
/// the second call changes nothing.
pub proof fn lemma_render_idempotent<T: RenderTarget>(
    s0: State<T>,
    s1: State<T>,
    s2: State<T>,
    r1: Option<FramePlan>,
    r2: Option<FramePlan>,
)
    requires
        render_post(s0, s1, r1),
        render_post(s1, s2, r2),
    ensures
        r1 is Some <==> s0.dirty,
        r2 is None,
        s2.target == s1.target,
        s2.size == s1.size,
        s2.quad == s1.quad,
        s2.view == s1.view,
        s2.dirty == s1.dirty,
{
}

} // verus!
