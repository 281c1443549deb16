//! Pan/zoom session state driven by anchored pointer deltas.
//!
//! Pointer positions are integer pixel coordinates. The zoom magnitude is
//! a fixed-point integer (`MAG_ONE` represents a magnification of one),
//! kept within `[1, MAG_MAX]` so a zoom gesture can never produce a zero
//! or negative scale. The cumulative pan offset is clamped to
//! `[-PAN_MAX, PAN_MAX]`.

use vstd::prelude::*;
use crate::frac::Frac;

verus! {

/// Fixed-point unit for zoom magnitudes: this value denotes 1.0.
pub const MAG_ONE: u64 = 256;

/// Largest zoom magnitude, in `MAG_ONE` units (denotes 256.0).
pub const MAG_MAX: u64 = 65536;

/// Largest pointer coordinate magnitude the gesture mutators accept.
pub const POS_MAX: i64 = 16777216;

/// The cumulative pan offset is clamped to this magnitude.
pub const PAN_MAX: i64 = 16777216;

/// The zoom mode tag with its magnitude: `Fit` scales the image to the
/// viewport before applying the magnitude, `Pixel` maps one image pixel
/// to `magnitude` viewport pixels.
#[derive(Clone, Copy, Debug, PartialEq, Eq, Structural)]
pub enum Zoom {
    Fit(u64),
    Pixel(u64),
}

impl Zoom {
    /// The fixed-point magnitude, regardless of tag.
    pub open spec fn mag(self) -> u64 {
        match self {
            Zoom::Fit(m) => m,
            Zoom::Pixel(m) => m,
        }
    }

    pub open spec fn wf(self) -> bool {
        1 <= self.mag() <= MAG_MAX
    }
}

/// Pan/zoom state: zoom mode and magnitude, cumulative pan offset, and
/// the anchor (the last pointer position of a drag gesture in progress,
/// or `None` between gestures).
#[derive(Clone, Copy, Debug, PartialEq)]
pub struct ViewState {
    pub zoom: Zoom,
    pub pos: (i64, i64),
    pub anchor: Option<(i64, i64)>,
}

/// Clamp a pan coordinate into `[-PAN_MAX, PAN_MAX]`.
pub open spec fn clamp_pan(x: int) -> int {
    if x < -PAN_MAX {
        -PAN_MAX as int
    } else if x > PAN_MAX {
        PAN_MAX as int
    } else {
        x
    }
}

/// Clamp a vertical drag delta into `[-128, 128]`, the range mapped onto
/// one gesture step's multiplicative zoom factor.
pub open spec fn clamp_zoom_delta(dy: int) -> int {
    if dy < -128 {
        -128
    } else if dy > 128 {
        128
    } else {
        dy
    }
}

/// The magnitude after multiplying `m` by the factor `num / den` in
/// fixed point: the product is rounded down and clamped into
/// `[1, MAG_MAX]`.
pub open spec fn updated_mag(m: int, num: int, den: int) -> int {
    let q = (m * num) / den;
    if q < 1 {
        1
    } else if q > MAG_MAX {
        MAG_MAX as int
    } else {
        q
    }
}

impl ViewState {
    pub open spec fn wf(self) -> bool {
        &&& self.zoom.wf()
        &&& -PAN_MAX <= self.pos.0 <= PAN_MAX
        &&& -PAN_MAX <= self.pos.1 <= PAN_MAX
        &&& match self.anchor {
            Some(a) => -POS_MAX <= a.0 <= POS_MAX && -POS_MAX <= a.1 <= POS_MAX,
            None => true,
        }
    }

    /// A fresh session: fit zoom at magnification one, no pan, no
    /// gesture in progress.
    pub fn new() -> (r: ViewState)
        ensures
            r.zoom == Zoom::Fit(MAG_ONE),
            r.pos == (0i64, 0i64),
            r.anchor is None,
            r.wf(),
    {
        ViewState { zoom: Zoom::Fit(MAG_ONE), pos: (0, 0), anchor: None }
    }

    /// Replace the zoom tag and magnitude outright; no magnitude is
    /// carried over.
    pub fn set_zoom_mode(&mut self, z: Zoom)
        requires
            old(self).wf(),
            z.wf(),
        ensures
            final(self).zoom == z,
            final(self).pos == old(self).pos,
            final(self).anchor == old(self).anchor,
            final(self).wf(),
    {
        self.zoom = z;
    }

    /// Multiply the current magnitude by `factor`, preserving whichever
    /// zoom tag is active. The product is computed in fixed point,
    /// rounded down, and clamped into `[1, MAG_MAX]`.
    pub fn update_magnification(&mut self, factor: Frac)
        requires
            old(self).wf(),
            factor.wf(),
            0 <= factor.n <= 0x1_0000_0000,
            factor.d <= 0x1_0000_0000,
        ensures
            final(self).zoom.mag() == updated_mag(
                old(self).zoom.mag() as int,
                factor.n as int,
                factor.d as int,
            ),
            final(self).zoom is Fit <==> old(self).zoom is Fit,
            final(self).pos == old(self).pos,
            final(self).anchor == old(self).anchor,
            final(self).wf(),
    {
        let num = factor.n as u64;
        let den = factor.d as u64;
        let m = match self.zoom {
            Zoom::Fit(m) => m,
            Zoom::Pixel(m) => m,
        };
        proof {
            assert(m * num <= 0x1_0000_0000_0000) by (nonlinear_arith)
                requires
                    0 <= m <= MAG_MAX,
                    0 <= num <= 0x1_0000_0000,
            ;
        }
        let q = (m * num) / den;
        let nm = if q < 1 {
            1
        } else if q > MAG_MAX {
            MAG_MAX
        } else {
            q
        };
        self.zoom = match self.zoom {
            Zoom::Fit(_) => Zoom::Fit(nm),
            Zoom::Pixel(_) => Zoom::Pixel(nm),
        };
    }

    /// Drag tracking. The first call of a gesture records the pointer as
    /// the anchor and moves nothing; later calls add the delta from the
    /// anchor to the cumulative pan (clamped) and refresh the anchor.
    pub fn set_position(&mut self, p: (i64, i64))
        requires
            old(self).wf(),
            -POS_MAX <= p.0 <= POS_MAX,
            -POS_MAX <= p.1 <= POS_MAX,
        ensures
            final(self).anchor == Some(p),
            final(self).zoom == old(self).zoom,
            match old(self).anchor {
                None => final(self).pos == old(self).pos,
                Some(a) => {
                    &&& final(self).pos.0 == clamp_pan(old(self).pos.0 + p.0 - a.0)
                    &&& final(self).pos.1 == clamp_pan(old(self).pos.1 + p.1 - a.1)
                },
            },
            final(self).wf(),
    {
        match self.anchor {
            None => {
                self.anchor = Some(p);
            },
            Some(a) => {
                let nx = clamp_pan_exec(self.pos.0 + (p.0 - a.0));
                let ny = clamp_pan_exec(self.pos.1 + (p.1 - a.1));
                self.pos = (nx, ny);
                self.anchor = Some(p);
            },
        }
    }

    /// Zoom tracking. The first call of a gesture records the pointer as
    /// the anchor and changes nothing; later calls map the vertical
    /// delta from the anchor to a multiplicative factor
    /// `(256 - clamp(dy, -128, 128)) / 256` (dragging up magnifies,
    /// dragging down shrinks, each step's factor lies in [1/2, 3/2]),
    /// apply it to the magnitude, and refresh the anchor. The pan offset
    /// is untouched.
    pub fn set_zoom(&mut self, p: (i64, i64))
        requires
            old(self).wf(),
            -POS_MAX <= p.0 <= POS_MAX,
            -POS_MAX <= p.1 <= POS_MAX,
        ensures
            final(self).anchor == Some(p),
            final(self).pos == old(self).pos,
            final(self).zoom is Fit <==> old(self).zoom is Fit,
            match old(self).anchor {
                None => final(self).zoom == old(self).zoom,
                Some(a) => final(self).zoom.mag() == updated_mag(
                    old(self).zoom.mag() as int,
                    256 - clamp_zoom_delta(p.1 - a.1),
                    256,
                ),
            },
            final(self).wf(),
    {
        match self.anchor {
            None => {
                self.anchor = Some(p);
            },
            Some(a) => {
                let dy = p.1 - a.1;
                let c: i64 = if dy < -128 {
                    -128
                } else if dy > 128 {
                    128
                } else {
                    dy
                };
                let factor = Frac::new((256 - c) as i128, 256);
                self.update_magnification(factor);
                self.anchor = Some(p);
            },
        }
    }

    /// The cumulative pan offset.
    pub fn get_displacement(&self) -> (r: (i64, i64))
        ensures
            r == self.pos,
    {
        self.pos
    }

    /// Record `a` as the gesture anchor.
    pub fn set_anchor(&mut self, a: (i64, i64))
        requires
            old(self).wf(),
            -POS_MAX <= a.0 <= POS_MAX,
            -POS_MAX <= a.1 <= POS_MAX,
        ensures
            final(self).anchor == Some(a),
            final(self).zoom == old(self).zoom,
            final(self).pos == old(self).pos,
            final(self).wf(),
    {
        self.anchor = Some(a);
    }

    /// End the current gesture: the next pan or zoom call re-anchors
    /// without applying a jump.
    pub fn clear_anchor(&mut self)
        requires
            old(self).wf(),
        ensures
            final(self).anchor is None,
            final(self).zoom == old(self).zoom,
            final(self).pos == old(self).pos,
            final(self).wf(),
    {
        self.anchor = None;
    }
}

/// Clamp a pan coordinate into `[-PAN_MAX, PAN_MAX]`.
fn clamp_pan_exec(x: i64) -> (r: i64)
    ensures
        r as int == clamp_pan(x as int),
{
    if x < -PAN_MAX {
        -PAN_MAX
    } else if x > PAN_MAX {
        PAN_MAX
    } else {
        x
    }
}

} // verus!
