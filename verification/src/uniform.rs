//! The uniform data model: the per-frame snapshot of every parameter the
//! shader consumes.

use vstd::prelude::*;
use crate::frac::{Frac, Qr, q_fits, q_int, q_mul, q_pos};
use crate::transform::{Vec2q, Viewport};

verus! {

/// A color in hue-saturation-value form, each channel an exact rational,
/// nominally in `[0, 1]`.
#[derive(Clone, Copy, Debug)]
pub struct Hsv {
    pub h: Frac,
    pub s: Frac,
    pub v: Frac,
}

impl Hsv {
    pub open spec fn wf(self) -> bool {
        self.h.wf() && self.s.wf() && self.v.wf()
    }

    pub fn new(h: Frac, s: Frac, v: Frac) -> (r: Hsv)
        ensures
            r.h == h,
            r.s == s,
            r.v == v,
    {
        Hsv { h, s, v }
    }
}

/// Per-frame snapshot of all parameters consumed by the shader: pan center,
/// multiplicative zoom, viewport resolution and offset in device pixels,
/// the iteration budget, and the two gradient endpoint colors.
#[derive(Clone, Copy, Debug)]
pub struct UniformData {
    pub center: Vec2q,
    pub zoom: Frac,
    pub resolution: Vec2q,
    pub window_offset: Vec2q,
    pub cycles: i32,
    pub start_color: Hsv,
    pub end_color: Hsv,
}

impl UniformData {
    /// The snapshot invariant: a positive zoom and a positive iteration
    /// budget; every rational well-formed.
    pub open spec fn wf(self) -> bool {
        &&& self.center.wf()
        &&& self.zoom.wf()
        &&& q_pos(self.zoom@)
        &&& self.resolution.wf()
        &&& self.window_offset.wf()
        &&& self.cycles >= 1
        &&& self.start_color.wf()
        &&& self.end_color.wf()
    }

    /// The default view: zoom `1/5`, a 100-cycle budget, centered at the
    /// origin, with a white-to-black gradient.
    pub fn defaults() -> (r: UniformData)
        ensures
            r.wf(),
            r.zoom@ == (Qr { n: 1, d: 5 }),
            r.cycles == 100,
            r.center.x@ == q_int(0),
            r.center.y@ == q_int(0),
            r.resolution.x@ == q_int(0),
            r.resolution.y@ == q_int(0),
            r.window_offset.x@ == q_int(0),
            r.window_offset.y@ == q_int(0),
            r.start_color.h@ == q_int(1),
            r.start_color.s@ == q_int(0),
            r.start_color.v@ == q_int(1),
            r.end_color.h@ == q_int(0),
            r.end_color.s@ == q_int(0),
            r.end_color.v@ == q_int(0),
    {
        UniformData {
            center: Vec2q::zero(),
            zoom: Frac::new(1, 5),
            resolution: Vec2q::zero(),
            window_offset: Vec2q::zero(),
            cycles: 100,
            start_color: Hsv::new(Frac::one(), Frac::zero(), Frac::one()),
            end_color: Hsv::new(Frac::zero(), Frac::zero(), Frac::zero()),
        }
    }

    /// Per-frame viewport update: scale the viewport size and top-left
    /// corner by the device pixel ratio into `resolution` and
    /// `window_offset`. A degenerate viewport — or a scale whose exact
    /// result does not fit — skips the update and retains the prior
    /// snapshot.
    pub fn with_viewport(self, vp: &Viewport, ppp: Frac) -> (r: UniformData)
        requires
            self.wf(),
            vp.wf(),
            ppp.wf(),
        ensures
            r.wf(),
            r.center == self.center,
            r.zoom == self.zoom,
            r.cycles == self.cycles,
            r.start_color == self.start_color,
            r.end_color == self.end_color,
            !vp.spec_positive_area() ==> r == self,
            vp.spec_positive_area() && q_fits(q_mul(vp.size.x@, ppp@)) && q_fits(
                q_mul(vp.size.y@, ppp@),
            ) && q_fits(q_mul(vp.min.x@, ppp@)) && q_fits(q_mul(vp.min.y@, ppp@)) ==> {
                &&& r.resolution.x@ == q_mul(vp.size.x@, ppp@)
                &&& r.resolution.y@ == q_mul(vp.size.y@, ppp@)
                &&& r.window_offset.x@ == q_mul(vp.min.x@, ppp@)
                &&& r.window_offset.y@ == q_mul(vp.min.y@, ppp@)
            },
    {
        if !vp.positive_area() {
            return self;
        }
        let rx = match vp.size.x.mul(ppp) {
            Some(v) => v,
            None => { return self; },
        };
        let ry = match vp.size.y.mul(ppp) {
            Some(v) => v,
            None => { return self; },
        };
        let ox = match vp.min.x.mul(ppp) {
            Some(v) => v,
            None => { return self; },
        };
        let oy = match vp.min.y.mul(ppp) {
            Some(v) => v,
            None => { return self; },
        };
        UniformData {
            resolution: Vec2q { x: rx, y: ry },
            window_offset: Vec2q { x: ox, y: oy },
            ..self
        }
    }
}

} // verus!
