//! Quad geometry: four corner vertices in image space, texture
//! coordinates into a fixed-capacity texture, and the per-frame vertex
//! positions derived from the view state.
//!
//! The corner template is the unit square; `map_texture_coords` scales
//! it to the current image size (so geometry is authored in image
//! pixels) and rescales texture coordinates to the fraction of the
//! texture the image occupies. `get_vertex` maps the corners through
//! image-to-viewport and then through the inverse of the cached
//! clip-to-pixel transform, yielding clip-space positions.

use vstd::prelude::*;
use crate::frac::{Frac, Rat, lemma_mul_bounds, lemma_mul_mono, lemma_mul_pos, lemma_mul_vals, lemma_mul_zero,
    rat_add, rat_le, rat_mag, rat_mul, rat_sub};
use crate::transform::{TMat, ViewTransform, lemma_compose_bound3, lemma_tbound3_mag, spec_apply,
    spec_compose, spec_invert, spec_scale_diag, spec_translate, tbound3, tdet, tmag, twf};
use crate::view_state::{MAG_ONE, ViewState, Zoom};

verus! {

/// Largest width or height, in pixels, of a viewport, image, or
/// texture. Keeps every product of the transform pipeline within
/// `i128`.
pub const DIM_MAX: u32 = 8192;

/// One corner of the quad: a position in image-pixel space and a
/// texture coordinate, both exact rationals.
#[derive(Clone, Copy, Debug, PartialEq, Eq)]
pub struct Vertex {
    pub position: (Frac, Frac),
    pub tex_coords: (Frac, Frac),
}

/// Horizontal component of the corner template: corners 0 and 1 sit on
/// the left edge, 2 and 3 on the right.
pub open spec fn corner_x(i: int) -> int {
    if i == 2 || i == 3 {
        1
    } else {
        0
    }
}

/// Vertical component of the corner template: corners 0 and 3 sit on
/// the top edge, 1 and 2 on the bottom.
pub open spec fn corner_y(i: int) -> int {
    if i == 1 || i == 2 {
        1
    } else {
        0
    }
}

/// Corner `i` scaled to the image size, with texture coordinates the
/// fraction `image_size / texture_size` of that corner.
pub open spec fn quad_vertex_wf(v: Vertex, i: int, img: (u32, u32), tex: (u32, u32)) -> bool {
    &&& v.position.0.n == corner_x(i) * img.0 && v.position.0.d == 1
    &&& v.position.1.n == corner_y(i) * img.1 && v.position.1.d == 1
    &&& v.tex_coords.0.n == corner_x(i) * img.0 && v.tex_coords.0.d == tex.0
    &&& v.tex_coords.1.n == corner_y(i) * img.1 && v.tex_coords.1.d == tex.1
}

/// The clip-to-pixel transform for a `w` by `h` viewport: maps clip
/// space `[-1, 1] x [-1, 1]` onto pixel space `[0, w] x [0, h]`,
/// flipping the vertical axis to match the target's row order.
pub open spec fn spec_clip_to_pixel(w: int, h: int) -> TMat {
    TMat { a: 2 * w, b: 0, c: 0, d: -2 * h, tx: 2 * w, ty: 2 * h, den: 4 }
}

/// The quad: the four corner vertices, the triangle index list, the
/// cached clip-to-pixel transform for the current viewport, and the
/// viewport, texture, and image sizes in pixels.
#[derive(Debug)]
pub struct Quad {
    pub vertices: Vec<Vertex>,
    pub indexes: Vec<u16>,
    pub shader_to_screen: ViewTransform,
    pub viewport_size: (u32, u32),
    pub texture_size: (u32, u32),
    pub image_size: (u32, u32),
}

/// The uniform scale factor selected by the zoom mode: for `Fit`, the
/// smaller of the viewport/image ratios times the magnitude; for
/// `Pixel`, the magnitude alone.
pub open spec fn spec_zoom_scale(q: Quad, s: ViewState) -> Rat {
    match s.zoom {
        Zoom::Fit(m) => {
            let xr = Rat { n: q.viewport_size.0 as int, d: q.image_size.0 as int };
            let yr = Rat { n: q.viewport_size.1 as int, d: q.image_size.1 as int };
            let mr = if rat_le(xr, yr) {
                xr
            } else {
                yr
            };
            rat_mul(mr, Rat { n: m as int, d: MAG_ONE as int })
        },
        Zoom::Pixel(m) => Rat { n: m as int, d: MAG_ONE as int },
    }
}

/// The image-to-viewport transform: scale by the zoom factor, then
/// translate so the image center lands on the viewport center shifted
/// by the cumulative pan.
pub open spec fn spec_image_to_screen(q: Quad, s: ViewState) -> TMat {
    let sc = spec_zoom_scale(q, s);
    let m0 = spec_scale_diag(sc);
    let cx = Rat { n: q.image_size.0 as int, d: 2 };
    let cy = Rat { n: q.image_size.1 as int, d: 2 };
    let mapped = spec_apply(m0, cx, cy);
    let vx = Rat { n: q.viewport_size.0 as int, d: 2 };
    let vy = Rat { n: q.viewport_size.1 as int, d: 2 };
    let tx = rat_add(rat_sub(vx, mapped.0), Rat { n: s.pos.0 as int, d: 1 });
    let ty = rat_add(rat_sub(vy, mapped.1), Rat { n: s.pos.1 as int, d: 1 });
    spec_compose(m0, spec_translate(tx, ty))
}

/// The full per-frame vertex transform: image-to-viewport followed by
/// the inverse of clip-to-pixel, mapping image-pixel positions to clip
/// space.
pub open spec fn spec_vertex_transform(q: Quad, s: ViewState) -> TMat {
    spec_compose(
        spec_image_to_screen(q, s),
        spec_invert(spec_clip_to_pixel(q.viewport_size.0 as int, q.viewport_size.1 as int)),
    )
}

impl Quad {
    pub open spec fn wf(self) -> bool {
        &&& self.vertices.len() == 4
        &&& self.indexes@ == seq![0u16, 1u16, 2u16, 0u16, 2u16, 3u16]
        &&& 1 <= self.viewport_size.0 <= DIM_MAX
        &&& 1 <= self.viewport_size.1 <= DIM_MAX
        &&& 1 <= self.image_size.0 && self.image_size.0 <= self.texture_size.0
        &&& self.texture_size.0 <= DIM_MAX
        &&& 1 <= self.image_size.1 && self.image_size.1 <= self.texture_size.1
        &&& self.texture_size.1 <= DIM_MAX
        &&& self.shader_to_screen@ == spec_clip_to_pixel(
            self.viewport_size.0 as int,
            self.viewport_size.1 as int,
        )
        &&& forall|i: int|
            0 <= i < 4 ==> quad_vertex_wf(
                #[trigger] self.vertices@[i],
                i,
                self.image_size,
                self.texture_size,
            )
    }

    /// A fresh quad: unit template corners, a 1 by 1 viewport, image,
    /// and texture, and the clip-to-pixel transform for that viewport.
    pub fn new() -> (r: Quad)
        ensures
            r.wf(),
            r.viewport_size == (1u32, 1u32),
            r.texture_size == (1u32, 1u32),
            r.image_size == (1u32, 1u32),
    {
        let vertices = template_vertices(1, 1, 1, 1);
        let mut indexes: Vec<u16> = Vec::new();
        indexes.push(0);
        indexes.push(1);
        indexes.push(2);
        indexes.push(0);
        indexes.push(2);
        indexes.push(3);
        proof {
            assert(indexes@ =~= seq![0u16, 1u16, 2u16, 0u16, 2u16, 3u16]);
        }
        Quad {
            vertices,
            indexes,
            shader_to_screen: build_clip_to_pixel(1, 1),
            viewport_size: (1, 1),
            texture_size: (1, 1),
            image_size: (1, 1),
        }
    }

    /// A quad whose viewport is already sized.
    pub fn with_init(viewport_size: (u32, u32)) -> (r: Quad)
        requires
            1 <= viewport_size.0 <= DIM_MAX,
            1 <= viewport_size.1 <= DIM_MAX,
        ensures
            r.wf(),
            r.viewport_size == viewport_size,
            r.texture_size == (1u32, 1u32),
            r.image_size == (1u32, 1u32),
    {
        let mut quad = Quad::default();
        quad.set_viewport_size(viewport_size);
        quad
    }

    /// Rebuild the cached clip-to-pixel transform for the new viewport
    /// and record the viewport size. Vertices are untouched.
    pub fn set_viewport_size(&mut self, size: (u32, u32))
        requires
            old(self).wf(),
            1 <= size.0 <= DIM_MAX,
            1 <= size.1 <= DIM_MAX,
        ensures
            final(self).viewport_size == size,
            final(self).image_size == old(self).image_size,
            final(self).texture_size == old(self).texture_size,
            final(self).vertices == old(self).vertices,
            final(self).indexes == old(self).indexes,
            final(self).shader_to_screen@ == spec_clip_to_pixel(size.0 as int, size.1 as int),
            final(self).wf(),
    {
        self.shader_to_screen = build_clip_to_pixel(size.0, size.1);
        self.viewport_size = size;
    }

    /// Resize the corner positions to `img_dims` (geometry in image
    /// pixels) and the texture coordinates to the fraction
    /// `img_dims / tex_dims` of the texture, supporting a texture that
    /// holds the image in its top-left region. Records both sizes.
    pub fn map_texture_coords(&mut self, img_dims: (u32, u32), tex_dims: (u32, u32))
        requires
            old(self).wf(),
            1 <= img_dims.0 && img_dims.0 <= tex_dims.0,
            tex_dims.0 <= DIM_MAX,
            1 <= img_dims.1 && img_dims.1 <= tex_dims.1,
            tex_dims.1 <= DIM_MAX,
        ensures
            final(self).image_size == img_dims,
            final(self).texture_size == tex_dims,
            final(self).viewport_size == old(self).viewport_size,
            final(self).shader_to_screen == old(self).shader_to_screen,
            final(self).indexes == old(self).indexes,
            final(self).wf(),
    {
        self.vertices = template_vertices(
            img_dims.0 as i128,
            img_dims.1 as i128,
            tex_dims.0 as i128,
            tex_dims.1 as i128,
        );
        self.image_size = img_dims;
        self.texture_size = tex_dims;
    }

    /// The triangle index list: two triangles over the four corners.
    pub fn index_ref(&self) -> (r: &Vec<u16>)
        requires
            self.wf(),
        ensures
            r@ == seq![0u16, 1u16, 2u16, 0u16, 2u16, 3u16],
    {
        &self.indexes
    }

    pub fn vertex_count(&self) -> (r: u32)
        requires
            self.wf(),
        ensures
            r == 4,
    {
        self.vertices.len() as u32
    }

    pub fn index_count(&self) -> (r: u32)
        requires
            self.wf(),
        ensures
            r == 6,
    {
        self.indexes.len() as u32
    }

    /// The uniform zoom scale factor for the current state.
    fn zoom_scale(&self, state: &ViewState) -> (r: Frac)
        requires
            self.wf(),
            state.wf(),
        ensures
            r@ == spec_zoom_scale(*self, *state),
            r.wf(),
            -0x2000_0000 <= r.n <= 0x2000_0000,
            r.d <= 0x20_0000,
    {
        match state.zoom {
            Zoom::Fit(m) => {
                let xr = Frac::new(self.viewport_size.0 as i128, self.image_size.0 as i128);
                let yr = Frac::new(self.viewport_size.1 as i128, self.image_size.1 as i128);
                proof {
                    lemma_mul_bounds(xr.n as int, yr.d as int, 8192, 8192);
                    lemma_mul_bounds(yr.n as int, xr.d as int, 8192, 8192);
                }
                let mr = if xr.le(&yr) {
                    xr
                } else {
                    yr
                };
                let mg = Frac::new(m as i128, MAG_ONE as i128);
                proof {
                    lemma_mul_bounds(mr.n as int, mg.n as int, 8192, 65536);
                    lemma_mul_bounds(mr.d as int, mg.d as int, 8192, 256);
                }
                mr.mul(&mg)
            },
            Zoom::Pixel(m) => Frac::new(m as i128, MAG_ONE as i128),
        }
    }

    /// The image-to-viewport transform for the current state: zoom
    /// scale, then the translation that centers the image in the
    /// viewport shifted by the cumulative pan.
    pub fn compute_image_to_screen(&self, state: &ViewState) -> (r: ViewTransform)
        requires
            self.wf(),
            state.wf(),
        ensures
            r@ == spec_image_to_screen(*self, *state),
            tbound3(r@, 0x40_0000_0000_0000, 0x80_0000_0000_0000_0000, 0x2000_0000_0000),
            twf(r@),
    {
        let sc = self.zoom_scale(state);
        let m0 = ViewTransform::scale_diag(&sc);
        proof {
            assert(tbound3(m0@, 0x2000_0000, 1, 0x20_0000));
            lemma_tbound3_mag(m0@, 0x2000_0000, 1, 0x20_0000, 0x2000_0000);
        }
        let cx = Frac::new(self.image_size.0 as i128, 2);
        let cy = Frac::new(self.image_size.1 as i128, 2);
        proof {
            lemma_mul_mono(tmag(m0@), rat_mag(cx@), 0x2000_0000, 8192);
            lemma_mul_pos(tmag(m0@), rat_mag(cx@));
            lemma_mul_mono(tmag(m0@) * rat_mag(cx@), rat_mag(cy@), 0x2_0000_0000_0000, 8192);
        }
        let mapped = m0.transform_vertex(&cx, &cy);
        proof {
            assert(-0x800_0000_0000 <= mapped.0.n <= 0x800_0000_0000 && mapped.0.d == 4 * m0@.den)
                by (nonlinear_arith)
                requires
                    mapped.0.n == m0@.a * cx@.n * cy@.d + m0@.b * (cy@.n * cx@.d) + m0@.tx * (
                    cx@.d * cy@.d),
                    mapped.0.d == m0@.den * (cx@.d * cy@.d),
                    m0@.b == 0,
                    m0@.tx == 0,
                    cx@.d == 2,
                    cy@.d == 2,
                    -0x2000_0000 <= m0@.a <= 0x2000_0000,
                    0 <= cx@.n <= 8192,
            ;
            assert(-0x800_0000_0000 <= mapped.1.n <= 0x800_0000_0000) by (nonlinear_arith)
                requires
                    mapped.1.n == m0@.c * cx@.n * cy@.d + m0@.d * (cy@.n * cx@.d) + m0@.ty * (
                    cx@.d * cy@.d),
                    m0@.c == 0,
                    m0@.ty == 0,
                    cx@.d == 2,
                    cy@.d == 2,
                    -0x2000_0000 <= m0@.d <= 0x2000_0000,
                    0 <= cy@.n <= 8192,
            ;
            assert(0 < mapped.0.d <= 0x80_0000);
            assert(mapped.1.d == mapped.0.d);
        }
        let vx = Frac::new(self.viewport_size.0 as i128, 2);
        let vy = Frac::new(self.viewport_size.1 as i128, 2);
        proof {
            lemma_mul_bounds(vx@.n, mapped.0.d as int, 8192, 0x80_0000);
            lemma_mul_bounds(vy@.n, mapped.1.d as int, 8192, 0x80_0000);
            lemma_mul_vals(mapped.0.n as int, vx@.d, mapped.0.n as int, 2);
            lemma_mul_vals(mapped.1.n as int, vy@.d, mapped.1.n as int, 2);
            lemma_mul_vals(vx@.d, mapped.0.d as int, 2, mapped.0.d as int);
            lemma_mul_vals(vy@.d, mapped.1.d as int, 2, mapped.1.d as int);
        }
        let tx0 = vx.sub(&mapped.0);
        let ty0 = vy.sub(&mapped.1);
        let panx = Frac::from_int(state.pos.0 as i128);
        let pany = Frac::from_int(state.pos.1 as i128);
        proof {
            assert(-0x2000_0000_0000 <= tx0.n <= 0x2000_0000_0000 && 0 < tx0.d <= 0x100_0000);
            assert(-0x2000_0000_0000 <= ty0.n <= 0x2000_0000_0000 && 0 < ty0.d <= 0x100_0000);
            lemma_mul_vals(tx0.n as int, panx@.d, tx0.n as int, 1);
            lemma_mul_vals(ty0.n as int, pany@.d, ty0.n as int, 1);
            lemma_mul_bounds(panx@.n, tx0.d as int, 0x100_0000, 0x100_0000);
            lemma_mul_bounds(pany@.n, ty0.d as int, 0x100_0000, 0x100_0000);
            lemma_mul_vals(tx0.d as int, panx@.d, tx0.d as int, 1);
            lemma_mul_vals(ty0.d as int, pany@.d, ty0.d as int, 1);
        }
        let tx1 = tx0.add(&panx);
        let ty1 = ty0.add(&pany);
        proof {
            assert(-0x2_0000_0000_0000 <= tx1.n <= 0x2_0000_0000_0000 && 0 < tx1.d <= 0x100_0000);
            assert(-0x2_0000_0000_0000 <= ty1.n <= 0x2_0000_0000_0000 && 0 < ty1.d <= 0x100_0000);
            lemma_mul_bounds(tx1.n as int, ty1.d as int, 0x2_0000_0000_0000, 0x100_0000);
            lemma_mul_bounds(ty1.n as int, tx1.d as int, 0x2_0000_0000_0000, 0x100_0000);
            lemma_mul_bounds(tx1.d as int, ty1.d as int, 0x100_0000, 0x100_0000);
        }
        let mt = ViewTransform::translate(&tx1, &ty1);
        proof {
            assert(tx1.d == ty1.d);
            assert(tbound3(mt@, 0x100_0000, 0x2_0000_0000_0000, 0x100_0000));
            lemma_tbound3_mag(mt@, 0x100_0000, 0x2_0000_0000_0000, 0x100_0000, 0x2_0000_0000_0000);
            lemma_mul_mono(tmag(mt@), tmag(m0@), 0x2_0000_0000_0000, 0x2000_0000);
            lemma_compose_bound3(
                m0@,
                mt@,
                0x2000_0000,
                1,
                0x20_0000,
                0x100_0000,
                0x2_0000_0000_0000,
                0x100_0000,
            );
        }
        let t = m0.compose(&mt);
        t
    }

    /// The four vertices for this frame: each corner position mapped
    /// through the full vertex transform into clip space; texture
    /// coordinates pass through unchanged.
    pub fn get_vertex(&self, state: &ViewState) -> (r: Vec<Vertex>)
        requires
            self.wf(),
            state.wf(),
        ensures
            r@.len() == 4,
            forall|i: int|
                0 <= i < 4 ==> {
                    let p = spec_apply(
                        spec_vertex_transform(*self, *state),
                        self.vertices@[i].position.0@,
                        self.vertices@[i].position.1@,
                    );
                    &&& (#[trigger] r@[i]).position.0@ == p.0
                    &&& r@[i].position.1@ == p.1
                    &&& r@[i].position.0.wf()
                    &&& r@[i].position.1.wf()
                    &&& r@[i].tex_coords == self.vertices@[i].tex_coords
                },
    {
        let t = self.compute_image_to_screen(state);
        proof {
            let clip = self.shader_to_screen@;
            let w = self.viewport_size.0 as int;
            let h = self.viewport_size.1 as int;
            assert(tdet(clip) < 0) by (nonlinear_arith)
                requires
                    tdet(clip) == clip.a * clip.d - clip.b * clip.c,
                    clip.a == 2 * w,
                    clip.b == 0,
                    clip.c == 0,
                    clip.d == -2 * h,
                    1 <= w <= 8192,
                    1 <= h <= 8192,
            ;
            assert(tbound3(clip, 0x4000, 0x4000, 4));
            lemma_tbound3_mag(clip, 0x4000, 0x4000, 4, 0x4000);
            lemma_mul_mono(tmag(clip), tmag(clip), 0x4000, 0x4000);
        }
        let inv = self.shader_to_screen.invert();
        proof {
            let clip = self.shader_to_screen@;
            let w = self.viewport_size.0 as int;
            let h = self.viewport_size.1 as int;
            let im = inv@;
            assert(-0x1_0000 <= im.a <= 0x1_0000 && im.b == 0 && im.c == 0 && -0x1_0000 <= im.d
                <= 0x1_0000 && -0x1000_0000 <= im.tx <= 0x1000_0000 && -0x1000_0000 <= im.ty
                <= 0x1000_0000 && 0 < im.den <= 0x1000_0000) by (nonlinear_arith)
                requires
                    im.a == -(clip.den * clip.d),
                    im.b == clip.den * clip.b,
                    im.c == clip.den * clip.c,
                    im.d == -(clip.den * clip.a),
                    im.tx == clip.d * clip.tx - clip.b * clip.ty,
                    im.ty == clip.a * clip.ty - clip.c * clip.tx,
                    im.den == -tdet(clip),
                    tdet(clip) == clip.a * clip.d - clip.b * clip.c,
                    clip.a == 2 * w,
                    clip.b == 0,
                    clip.c == 0,
                    clip.d == -2 * h,
                    clip.tx == 2 * w,
                    clip.ty == 2 * h,
                    clip.den == 4,
                    1 <= w <= 8192,
                    1 <= h <= 8192,
            ;
            assert(tbound3(inv@, 0x1_0000, 0x1000_0000, 0x1000_0000));
            lemma_tbound3_mag(inv@, 0x1_0000, 0x1000_0000, 0x1000_0000, 0x1000_0000);
            lemma_tbound3_mag(
                t@,
                0x40_0000_0000_0000,
                0x80_0000_0000_0000_0000,
                0x2000_0000_0000,
                0x80_0000_0000_0000_0000,
            );
            lemma_mul_mono(tmag(inv@), tmag(t@), 0x1000_0000, 0x80_0000_0000_0000_0000);
            lemma_compose_bound3(
                t@,
                inv@,
                0x40_0000_0000_0000,
                0x80_0000_0000_0000_0000,
                0x2000_0000_0000,
                0x1_0000,
                0x1000_0000,
                0x1000_0000,
            );
        }
        let t2 = t.compose(&inv);
        proof {
            lemma_tbound3_mag(
                t2@,
                0x80_0000_0000_0000_0000,
                0x2000_0000_0000_0000_0000_0000,
                0x200_0000_0000_0000_0000,
                0x2000_0000_0000_0000_0000_0000,
            );
        }
        let v0 = self.map_corner(&t2, 0);
        let v1 = self.map_corner(&t2, 1);
        let v2 = self.map_corner(&t2, 2);
        let v3 = self.map_corner(&t2, 3);
        let mut out: Vec<Vertex> = Vec::new();
        out.push(v0);
        out.push(v1);
        out.push(v2);
        out.push(v3);
        out
    }

    /// Map one corner through the composed vertex transform.
    fn map_corner(&self, t2: &ViewTransform, i: usize) -> (r: Vertex)
        requires
            self.wf(),
            i < 4,
            twf(t2@),
            tmag(t2@) <= 0x2000_0000_0000_0000_0000_0000,
        ensures
            r.position.0@ == spec_apply(
                t2@,
                self.vertices@[i as int].position.0@,
                self.vertices@[i as int].position.1@,
            ).0,
            r.position.1@ == spec_apply(
                t2@,
                self.vertices@[i as int].position.0@,
                self.vertices@[i as int].position.1@,
            ).1,
            r.position.0.wf(),
            r.position.1.wf(),
            r.tex_coords == self.vertices@[i as int].tex_coords,
    {
        let v = &self.vertices[i];
        proof {
            assert(quad_vertex_wf(self.vertices@[i as int], i as int, self.image_size,
                self.texture_size));
            assert(0 <= corner_x(i as int) * self.image_size.0 <= 8192) by (nonlinear_arith)
                requires
                    corner_x(i as int) == 0 || corner_x(i as int) == 1,
                    0 <= self.image_size.0 <= 8192,
            ;
            assert(0 <= corner_y(i as int) * self.image_size.1 <= 8192) by (nonlinear_arith)
                requires
                    corner_y(i as int) == 0 || corner_y(i as int) == 1,
                    0 <= self.image_size.1 <= 8192,
            ;
            assert(rat_mag(v.position.0@) <= 8192);
            assert(rat_mag(v.position.1@) <= 8192);
            lemma_mul_mono(tmag(t2@), rat_mag(v.position.0@), 0x2000_0000_0000_0000_0000_0000,
                8192);
            lemma_mul_pos(tmag(t2@), rat_mag(v.position.0@));
            lemma_mul_mono(tmag(t2@) * rat_mag(v.position.0@), rat_mag(v.position.1@),
                0x2000_0000_0000_0000_0000_0000_0000, 8192);
        }
        let p = t2.transform_vertex(&v.position.0, &v.position.1);
        Vertex { position: p, tex_coords: v.tex_coords }
    }
}

impl Default for Quad {
    /// Same as `Quad::new`.
    fn default() -> (r: Quad)
        ensures
            r.wf(),
            r.viewport_size == (1u32, 1u32),
            r.texture_size == (1u32, 1u32),
            r.image_size == (1u32, 1u32),
    {
        Quad::new()
    }
}

/// Centering law: for every well-formed quad and view state, the
/// image-to-viewport transform sends the image center to the viewport
/// center shifted by the cumulative pan — exactly, as rationals. With
/// zero pan the image is centered in the viewport, whatever the zoom
/// mode, magnitude, or sizes.
pub proof fn lemma_image_center_maps_to_viewport_center(q: Quad, s: ViewState)
    requires
        q.wf(),
        s.wf(),
    ensures
        ({
            let c = spec_apply(
                spec_image_to_screen(q, s),
                Rat { n: q.image_size.0 as int, d: 2 },
                Rat { n: q.image_size.1 as int, d: 2 },
            );
            &&& crate::frac::rat_eqv(
                c.0,
                Rat { n: q.viewport_size.0 + 2 * s.pos.0, d: 2 },
            )
            &&& crate::frac::rat_eqv(
                c.1,
                Rat { n: q.viewport_size.1 + 2 * s.pos.1, d: 2 },
            )
            &&& c.0.d != 0
            &&& c.1.d != 0
        }),
{
    let sc = spec_zoom_scale(q, s);
    let iw = q.image_size.0 as int;
    let ih = q.image_size.1 as int;
    let vw = q.viewport_size.0 as int;
    let vh = q.viewport_size.1 as int;
    let px = s.pos.0 as int;
    let py = s.pos.1 as int;
    match s.zoom {
        Zoom::Fit(m) => {
            assert(sc.d == iw * 256 || sc.d == ih * 256);
            assert(sc.d > 0) by (nonlinear_arith)
                requires
                    sc.d == iw * 256 || sc.d == ih * 256,
                    iw >= 1,
                    ih >= 1,
            ;
        },
        Zoom::Pixel(m) => {
            assert(sc.d == 256);
        },
    }
    let n = sc.n;
    let d = sc.d;
    let m0 = spec_scale_diag(sc);
    let cx = Rat { n: iw, d: 2 };
    let cy = Rat { n: ih, d: 2 };
    let mapped = spec_apply(m0, cx, cy);
    assert(mapped.0.n == 2 * (n * iw) && mapped.0.d == 4 * d && mapped.1.n == 2 * (n * ih)
        && mapped.1.d == 4 * d) by (nonlinear_arith)
        requires
            mapped.0.n == n * iw * 2 + 0 * (ih * 2) + 0 * (2 * 2),
            mapped.0.d == d * (2 * 2),
            mapped.1.n == 0 * iw * 2 + n * (ih * 2) + 0 * (2 * 2),
            mapped.1.d == d * (2 * 2),
    ;
    let vx = Rat { n: vw, d: 2 };
    let vy = Rat { n: vh, d: 2 };
    let tx = rat_add(rat_sub(vx, mapped.0), Rat { n: px, d: 1 });
    let ty = rat_add(rat_sub(vy, mapped.1), Rat { n: py, d: 1 });
    assert(tx.n == (vw * mapped.0.d - mapped.0.n * 2) * 1 + px * (2 * mapped.0.d));
    assert(tx.d == (2 * mapped.0.d) * 1);
    assert(ty.n == (vh * mapped.1.d - mapped.1.n * 2) * 1 + py * (2 * mapped.1.d));
    assert(ty.d == (2 * mapped.1.d) * 1);
    assert(tx.n == (vw * (4 * d) - 2 * (n * iw) * 2) * 1 + px * (2 * (4 * d)) && tx.d == (2 * (4
        * d)) * 1) by (nonlinear_arith)
        requires
            tx.n == (vw * mapped.0.d - mapped.0.n * 2) * 1 + px * (2 * mapped.0.d),
            tx.d == (2 * mapped.0.d) * 1,
            mapped.0.n == 2 * (n * iw),
            mapped.0.d == 4 * d,
    ;
    assert(ty.n == (vh * (4 * d) - 2 * (n * ih) * 2) * 1 + py * (2 * (4 * d)) && ty.d == (2 * (4
        * d)) * 1) by (nonlinear_arith)
        requires
            ty.n == (vh * mapped.1.d - mapped.1.n * 2) * 1 + py * (2 * mapped.1.d),
            ty.d == (2 * mapped.1.d) * 1,
            mapped.1.n == 2 * (n * ih),
            mapped.1.d == 4 * d,
    ;
    let mt = spec_translate(tx, ty);
    assert(tx.d == ty.d);
    let mm = spec_compose(m0, mt);
    let c = spec_apply(mm, cx, cy);
    lemma_mul_vals(mt.a, m0.a, tx.d, n);
    lemma_mul_zero(mt.b, m0.c);
    assert(mm.a == tx.d * n);
    lemma_mul_zero(mt.a, m0.b);
    lemma_mul_zero(mt.b, m0.d);
    assert(mm.b == 0);
    lemma_mul_zero(mt.c, m0.a);
    lemma_mul_zero(mt.d, m0.c);
    assert(mm.c == 0);
    lemma_mul_zero(mt.c, m0.b);
    lemma_mul_vals(mt.d, m0.d, tx.d, n);
    assert(mm.d == tx.d * n);
    lemma_mul_zero(mt.a, m0.tx);
    lemma_mul_zero(mt.b, m0.ty);
    lemma_mul_vals(mt.tx, m0.den, tx.n, d);
    assert(mm.tx == tx.n * d);
    lemma_mul_zero(mt.c, m0.tx);
    lemma_mul_zero(mt.d, m0.ty);
    lemma_mul_vals(mt.ty, m0.den, ty.n, d);
    assert(mm.ty == ty.n * d);
    lemma_mul_vals(mt.den, m0.den, tx.d, d);
    assert(mm.den == tx.d * d);
    lemma_mul_vals(mm.a, cx.n, tx.d * n, iw);
    lemma_mul_vals(mm.a * cx.n, cy.d, (tx.d * n) * iw, 2);
    lemma_mul_vals(cy.n, cx.d, ih, 2);
    lemma_mul_zero(mm.b, cy.n * cx.d);
    lemma_mul_vals(cx.d, cy.d, 2, 2);
    lemma_mul_vals(mm.tx, cx.d * cy.d, tx.n * d, 4);
    lemma_mul_vals(mm.den, cx.d * cy.d, tx.d * d, 4);
    assert(c.0.n == ((tx.d * n) * iw) * 2 + (tx.n * d) * 4);
    assert(c.0.d == (tx.d * d) * 4);
    lemma_mul_zero(mm.c, cx.n);
    lemma_mul_zero(mm.c * cx.n, cy.d);
    lemma_mul_vals(mm.d, cy.n * cx.d, tx.d * n, ih * 2);
    lemma_mul_vals(mm.ty, cx.d * cy.d, ty.n * d, 4);
    assert(c.1.n == (tx.d * n) * (ih * 2) + (ty.n * d) * 4);
    assert(c.1.d == (tx.d * d) * 4);
    lemma_center_component_x(d, n, iw, vw, px, tx.n, tx.d, c.0.n, c.0.d);
    lemma_center_component_y(d, n, ih, vh, py, ty.n, tx.d, c.1.n, c.1.d);
}

/// Polynomial core of the centering law, horizontal component: with the
/// translation built from the mapped center, the composed numerator and
/// denominator satisfy the viewport-center identity.
proof fn lemma_center_component_x(
    d: int,
    n: int,
    g: int,
    w: int,
    p: int,
    txn: int,
    txd: int,
    cn: int,
    cd: int,
)
    by (nonlinear_arith)
    requires
        d > 0,
        txd == (2 * (4 * d)) * 1,
        txn == (w * (4 * d) - 2 * (n * g) * 2) * 1 + p * (2 * (4 * d)),
        cn == ((txd * n) * g) * 2 + (txn * d) * 4,
        cd == (txd * d) * 4,
    ensures
        cn * 2 == (w + 2 * p) * cd,
        cd != 0,
{
}

/// Polynomial core of the centering law, vertical component.
proof fn lemma_center_component_y(
    d: int,
    n: int,
    g: int,
    w: int,
    p: int,
    txn: int,
    txd: int,
    cn: int,
    cd: int,
)
    by (nonlinear_arith)
    requires
        d > 0,
        txd == (2 * (4 * d)) * 1,
        txn == (w * (4 * d) - 2 * (n * g) * 2) * 1 + p * (2 * (4 * d)),
        cn == (txd * n) * (g * 2) + (txn * d) * 4,
        cd == (txd * d) * 4,
    ensures
        cn * 2 == (w + 2 * p) * cd,
        cd != 0,
{
}

/// The corner template scaled to an image of `iw` by `ih` pixels inside
/// a texture of `tw` by `th` pixels.
fn template_vertices(iw: i128, ih: i128, tw: i128, th: i128) -> (r: Vec<Vertex>)
    requires
        1 <= iw <= 8192,
        1 <= ih <= 8192,
        1 <= tw <= 8192,
        1 <= th <= 8192,
    ensures
        r.len() == 4,
        forall|i: int|
            0 <= i < 4 ==> {
                &&& (#[trigger] r@[i]).position.0.n == corner_x(i) * iw && r@[i].position.0.d == 1
                &&& r@[i].position.1.n == corner_y(i) * ih && r@[i].position.1.d == 1
                &&& r@[i].tex_coords.0.n == corner_x(i) * iw && r@[i].tex_coords.0.d == tw
                &&& r@[i].tex_coords.1.n == corner_y(i) * ih && r@[i].tex_coords.1.d == th
            },
{
    let mut vs: Vec<Vertex> = Vec::new();
    vs.push(
        Vertex {
            position: (Frac::new(0, 1), Frac::new(0, 1)),
            tex_coords: (Frac::new(0, tw), Frac::new(0, th)),
        },
    );
    vs.push(
        Vertex {
            position: (Frac::new(0, 1), Frac::new(ih, 1)),
            tex_coords: (Frac::new(0, tw), Frac::new(ih, th)),
        },
    );
    vs.push(
        Vertex {
            position: (Frac::new(iw, 1), Frac::new(ih, 1)),
            tex_coords: (Frac::new(iw, tw), Frac::new(ih, th)),
        },
    );
    vs.push(
        Vertex {
            position: (Frac::new(iw, 1), Frac::new(0, 1)),
            tex_coords: (Frac::new(iw, tw), Frac::new(0, th)),
        },
    );
    vs
}

/// Build the clip-to-pixel transform for a `w` by `h` viewport:
/// scale by (1/2, -1/2), translate by (1/2, 1/2), scale by (w, h).
fn build_clip_to_pixel(w: u32, h: u32) -> (r: ViewTransform)
    requires
        1 <= w <= DIM_MAX,
        1 <= h <= DIM_MAX,
    ensures
        r@ == spec_clip_to_pixel(w as int, h as int),
        twf(r@),
{
    let s1 = ViewTransform::scale(&Frac::new(1, 2), &Frac::new(-1, 2));
    let t1 = ViewTransform::translate(&Frac::new(1, 2), &Frac::new(1, 2));
    proof {
        assert(tbound3(s1@, 1, 1, 2));
        assert(tbound3(t1@, 2, 1, 2));
        lemma_tbound3_mag(s1@, 1, 1, 2, 2);
        lemma_tbound3_mag(t1@, 2, 1, 2, 2);
        lemma_mul_mono(tmag(t1@), tmag(s1@), 2, 2);
    }
    let c1 = s1.compose(&t1);
    proof {
        let sm = s1@;
        let tm = t1@;
        let cm = c1@;
        assert(cm.a == 2 && cm.b == 0 && cm.c == 0 && cm.d == -2 && cm.tx == 2 && cm.ty == 2
            && cm.den == 4) by (nonlinear_arith)
            requires
                cm.a == tm.a * sm.a + tm.b * sm.c,
                cm.b == tm.a * sm.b + tm.b * sm.d,
                cm.c == tm.c * sm.a + tm.d * sm.c,
                cm.d == tm.c * sm.b + tm.d * sm.d,
                cm.tx == tm.a * sm.tx + tm.b * sm.ty + tm.tx * sm.den,
                cm.ty == tm.c * sm.tx + tm.d * sm.ty + tm.ty * sm.den,
                cm.den == tm.den * sm.den,
                sm.a == 1 && sm.b == 0 && sm.c == 0 && sm.d == -1,
                sm.tx == 0 && sm.ty == 0 && sm.den == 2,
                tm.a == 2 && tm.b == 0 && tm.c == 0 && tm.d == 2,
                tm.tx == 1 && tm.ty == 1 && tm.den == 2,
        ;
    }
    let s2 = ViewTransform::scale(&Frac::new(w as i128, 1), &Frac::new(h as i128, 1));
    proof {
        assert(tbound3(c1@, 2, 2, 4));
        lemma_tbound3_mag(c1@, 2, 2, 4, 4);
        assert(tbound3(s2@, 8192, 1, 1));
        lemma_tbound3_mag(s2@, 8192, 1, 1, 8192);
        lemma_mul_mono(tmag(s2@), tmag(c1@), 8192, 4);
    }
    let c2 = c1.compose(&s2);
    proof {
        let sm = c1@;
        let tm = s2@;
        let cm = c2@;
        let wi = w as int;
        let hi = h as int;
        assert(cm.a == 2 * wi && cm.b == 0 && cm.c == 0 && cm.d == -2 * hi && cm.tx == 2 * wi
            && cm.ty == 2 * hi && cm.den == 4) by (nonlinear_arith)
            requires
                cm.a == tm.a * sm.a + tm.b * sm.c,
                cm.b == tm.a * sm.b + tm.b * sm.d,
                cm.c == tm.c * sm.a + tm.d * sm.c,
                cm.d == tm.c * sm.b + tm.d * sm.d,
                cm.tx == tm.a * sm.tx + tm.b * sm.ty + tm.tx * sm.den,
                cm.ty == tm.c * sm.tx + tm.d * sm.ty + tm.ty * sm.den,
                cm.den == tm.den * sm.den,
                sm.a == 2 && sm.b == 0 && sm.c == 0 && sm.d == -2,
                sm.tx == 2 && sm.ty == 2 && sm.den == 4,
                tm.a == wi && tm.b == 0 && tm.c == 0 && tm.d == hi,
                tm.tx == 0 && tm.ty == 0 && tm.den == 1,
        ;
    }
    c2
}

} // verus!
