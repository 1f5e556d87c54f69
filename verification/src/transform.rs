//! View transform: mapping device-pixel positions to fractal-plane
//! coordinates and back, plus the pan and zoom-about-pointer updates.
//!
//! The host-side transform normalizes a screen position over the viewport,
//! centers it, and adds the current pan `center`; the shader divides the
//! result by `zoom`. The round-trip and zoom-invariance laws are proved over
//! exact rationals.

use vstd::prelude::*;
use crate::frac::{
    Frac, Qr, q_add, q_div, q_eq, q_fits, q_half, q_int, q_mul, q_pos, q_sub, q_wf,
    lemma_q_add_congr, lemma_q_add_sub_cancel, lemma_q_add_wf, lemma_q_common_factor,
    lemma_q_div_congr, lemma_q_div_mul_cancel, lemma_q_div_wf, lemma_q_eq_refl, lemma_q_eq_symm,
    lemma_q_eq_trans, lemma_q_mul_congr, lemma_q_mul_div_cancel, lemma_q_scale_split,
    lemma_q_sub_add_cancel, lemma_q_sub_congr,
};

verus! {

/// A 2-component value (point, extent, offset), one exact rational per axis.
#[derive(Clone, Copy, Debug)]
pub struct Vec2q {
    pub x: Frac,
    pub y: Frac,
}

impl Vec2q {
    pub open spec fn wf(self) -> bool {
        self.x.wf() && self.y.wf()
    }

    pub fn new(x: Frac, y: Frac) -> (r: Vec2q)
        ensures
            r.x == x,
            r.y == y,
    {
        Vec2q { x, y }
    }

    pub fn zero() -> (r: Vec2q)
        ensures
            r.wf(),
            r.x@ == q_int(0),
            r.y@ == q_int(0),
    {
        Vec2q { x: Frac::zero(), y: Frac::zero() }
    }
}

/// The drawn viewport within the window: top-left corner and size, in
/// device pixels.
#[derive(Clone, Copy, Debug)]
pub struct Viewport {
    pub min: Vec2q,
    pub size: Vec2q,
}

impl Viewport {
    pub open spec fn wf(self) -> bool {
        self.min.wf() && self.size.wf()
    }

    /// Both extents are strictly positive; a degenerate viewport is skipped
    /// by the per-frame update instead of transformed.
    pub open spec fn spec_positive_area(self) -> bool {
        q_pos(self.size.x@) && q_pos(self.size.y@)
    }

    pub fn new(min: Vec2q, size: Vec2q) -> (r: Viewport)
        ensures
            r.min == min,
            r.size == size,
    {
        Viewport { min, size }
    }

    pub fn positive_area(&self) -> (r: bool)
        requires
            self.wf(),
        ensures
            r == self.spec_positive_area(),
    {
        self.size.x.is_pos() && self.size.y.is_pos()
    }
}

/// One axis of the screen-to-fractal map: normalize over the viewport,
/// center, and add the pan `center`.
pub open spec fn spec_screen_to_fractal(p: Qr, mn: Qr, sz: Qr, c: Qr) -> Qr {
    q_add(q_sub(q_div(q_sub(p, mn), sz), q_half()), c)
}

/// One axis of the inverse map.
pub open spec fn spec_fractal_to_screen(f: Qr, mn: Qr, sz: Qr, c: Qr) -> Qr {
    q_add(q_mul(q_add(q_sub(f, c), q_half()), sz), mn)
}

/// One axis of the pan update: the center moves against the drag, with the
/// drag measured as a fraction of the viewport.
pub open spec fn spec_pan_center(c: Qr, drag: Qr, sz: Qr) -> Qr {
    q_sub(c, q_div(drag, sz))
}

/// One axis of the zoom-about-pointer center update, `pf` being the
/// pointer's fractal-space position before the zoom is applied.
pub open spec fn spec_zoom_center(c: Qr, pf: Qr, delta: Qr) -> Qr {
    q_add(c, q_mul(pf, q_sub(delta, q_int(1))))
}

/// A nonzero times a nonzero is nonzero: composite denominators stay legal.
proof fn lemma_nonzero_prod(a: int, b: int) by (nonlinear_arith)
    requires
        a != 0,
        b != 0,
    ensures
        a * b != 0,
{
}

/// A positive rational with a positive denominator has a positive
/// numerator.
pub proof fn lemma_q_pos_num(q: Qr)
    requires
        q.d > 0,
        q_pos(q),
    ensures
        q.n > 0,
{
    assert(q.n > 0) by (nonlinear_arith)
        requires
            q.d > 0,
            q.n * q.d > 0,
    ;
}

/// Associativity of rational addition.
#[verifier::rlimit(100)]
pub proof fn lemma_q_add_assoc(x: Qr, y: Qr, z: Qr)
    ensures
        q_eq(q_add(q_add(x, y), z), q_add(x, q_add(y, z))),
{
    let l = q_add(q_add(x, y), z);
    let r = q_add(x, q_add(y, z));
    assert(l.n * r.d == r.n * l.d) by (nonlinear_arith)
        requires
            l.n == (x.n * y.d + y.n * x.d) * z.d + z.n * (x.d * y.d),
            l.d == (x.d * y.d) * z.d,
            r.n == x.n * (y.d * z.d) + (y.n * z.d + z.n * y.d) * x.d,
            r.d == x.d * (y.d * z.d),
    ;
}

/// Round trip, one direction: mapping a screen position into the fractal
/// plane and back returns the same position, for any viewport axis of
/// nonzero extent.
pub proof fn lemma_round_trip_screen(p: Qr, mn: Qr, sz: Qr, c: Qr)
    requires
        q_wf(p),
        q_wf(mn),
        q_wf(sz),
        q_wf(c),
        sz.n != 0,
    ensures
        q_eq(
            spec_fractal_to_screen(spec_screen_to_fractal(p, mn, sz, c), mn, sz, c),
            p,
        ),
{
    let h = q_half();
    let t1 = q_sub(p, mn);
    let b = q_div(t1, sz);
    let bh = q_sub(b, h);
    let s = q_add(bh, c);
    lemma_q_add_wf(p, mn);
    lemma_q_div_wf(t1, sz);
    lemma_q_add_wf(b, h);
    lemma_q_add_wf(bh, c);
    // (s - c) + h == b
    lemma_q_sub_add_cancel(bh, c);
    lemma_q_add_congr(q_sub(s, c), bh, h, h);
    lemma_q_add_sub_cancel(b, h);
    lemma_q_add_wf(s, c);
    lemma_q_add_wf(q_sub(s, c), h);
    lemma_q_add_wf(bh, h);
    lemma_q_eq_trans(q_add(q_sub(s, c), h), q_add(bh, h), b);
    // ((s - c) + h) * sz == p - mn
    lemma_q_mul_congr(q_add(q_sub(s, c), h), b, sz, sz);
    lemma_q_div_mul_cancel(t1, sz);
    lemma_q_add_wf(b, sz);
    lemma_q_eq_trans(q_mul(q_add(q_sub(s, c), h), sz), q_mul(b, sz), t1);
    // (((s - c) + h) * sz) + mn == p
    lemma_q_add_congr(q_mul(q_add(q_sub(s, c), h), sz), t1, mn, mn);
    lemma_q_add_sub_cancel(p, mn);
    lemma_q_add_wf(t1, mn);
    lemma_q_eq_trans(
        q_add(q_mul(q_add(q_sub(s, c), h), sz), mn),
        q_add(t1, mn),
        p,
    );
}

/// Round trip, other direction: mapping a fractal coordinate to the screen
/// and back returns the same coordinate.
pub proof fn lemma_round_trip_fractal(f: Qr, mn: Qr, sz: Qr, c: Qr)
    requires
        q_wf(f),
        q_wf(mn),
        q_wf(sz),
        q_wf(c),
        sz.n != 0,
    ensures
        q_eq(
            spec_screen_to_fractal(spec_fractal_to_screen(f, mn, sz, c), mn, sz, c),
            f,
        ),
{
    let h = q_half();
    let fc = q_sub(f, c);
    let x = q_add(fc, h);
    let m = q_mul(x, sz);
    let t = q_add(m, mn);
    lemma_q_add_wf(f, c);
    lemma_q_add_wf(fc, h);
    lemma_q_add_wf(x, sz);
    lemma_q_add_wf(m, mn);
    // t - mn == m
    lemma_q_sub_add_cancel(m, mn);
    // (t - mn) / sz == x
    lemma_q_div_congr(q_sub(t, mn), m, sz, sz);
    lemma_q_mul_div_cancel(x, sz);
    lemma_q_div_wf(m, sz);
    lemma_q_add_wf(t, mn);
    lemma_q_div_wf(q_sub(t, mn), sz);
    lemma_q_eq_trans(q_div(q_sub(t, mn), sz), q_div(m, sz), x);
    // (t - mn) / sz - h == f - c
    lemma_q_sub_congr(q_div(q_sub(t, mn), sz), x, h, h);
    lemma_q_sub_add_cancel(fc, h);
    lemma_q_add_wf(x, h);
    lemma_q_eq_trans(q_sub(q_div(q_sub(t, mn), sz), h), q_sub(x, h), fc);
    // ((t - mn) / sz - h) + c == f
    lemma_q_add_congr(q_sub(q_div(q_sub(t, mn), sz), h), fc, c, c);
    lemma_q_add_sub_cancel(f, c);
    lemma_q_add_wf(fc, c);
    lemma_q_eq_trans(
        q_add(q_sub(q_div(q_sub(t, mn), sz), h), c),
        q_add(fc, c),
        f,
    );
}

/// Zoom-about-pointer invariance: with `pf` the pointer's fractal-space
/// position before the update, after `zoom *= delta` and
/// `center += pf * (delta - 1)` the true fractal coordinate recovered at
/// the same screen position — the transform divided by the zoom — is
/// unchanged.
pub proof fn lemma_zoom_about_pointer(p: Qr, mn: Qr, sz: Qr, c: Qr, zoom: Qr, delta: Qr)
    requires
        q_wf(p),
        q_wf(mn),
        q_wf(sz),
        q_wf(c),
        q_wf(zoom),
        q_wf(delta),
        sz.n != 0,
        zoom.n != 0,
        delta.n != 0,
    ensures
        q_eq(
            q_div(
                spec_screen_to_fractal(
                    p,
                    mn,
                    sz,
                    spec_zoom_center(c, spec_screen_to_fractal(p, mn, sz, c), delta),
                ),
                q_mul(zoom, delta),
            ),
            q_div(spec_screen_to_fractal(p, mn, sz, c), zoom),
        ),
{
    let h = q_half();
    let t1 = q_sub(p, mn);
    let b = q_sub(q_div(t1, sz), h);
    let pf = q_add(b, c);
    let m = q_mul(pf, q_sub(delta, q_int(1)));
    let c2 = q_add(c, m);
    // well-formedness of the pieces
    lemma_q_add_wf(p, mn);
    lemma_q_div_wf(t1, sz);
    lemma_q_add_wf(q_div(t1, sz), h);
    lemma_q_add_wf(b, c);
    lemma_q_add_wf(delta, q_int(1));
    lemma_q_add_wf(pf, q_sub(delta, q_int(1)));
    lemma_q_add_wf(c, m);
    lemma_q_add_wf(b, c2);
    lemma_q_add_wf(pf, m);
    lemma_q_add_wf(pf, delta);
    // b + c2 == (b + c) + m == pf + m
    lemma_q_add_assoc(b, c, m);
    lemma_q_eq_symm(q_add(q_add(b, c), m), q_add(b, q_add(c, m)));
    // pf + pf * (delta - 1) == pf * delta
    lemma_q_scale_split(pf, delta);
    lemma_q_add_wf(q_add(b, c), m);
    lemma_q_eq_trans(q_add(b, c2), q_add(pf, m), q_mul(pf, delta));
    // divide both sides by zoom * delta
    lemma_q_eq_refl(q_mul(zoom, delta));
    lemma_q_div_congr(q_add(b, c2), q_mul(pf, delta), q_mul(zoom, delta), q_mul(zoom, delta));
    // (pf * delta) / (zoom * delta) == pf / zoom
    lemma_q_common_factor(pf, zoom, delta);
    lemma_nonzero_prod(pf.d, delta.d);
    lemma_nonzero_prod(zoom.n, delta.n);
    lemma_nonzero_prod(pf.d * delta.d, zoom.n * delta.n);
    lemma_q_eq_trans(
        q_div(q_add(b, c2), q_mul(zoom, delta)),
        q_div(q_mul(pf, delta), q_mul(zoom, delta)),
        q_div(pf, zoom),
    );
}

/// Everything the executable screen-to-fractal map computes on one axis
/// stays representable.
pub open spec fn spec_s2f_fits(p: Qr, mn: Qr, sz: Qr, c: Qr) -> bool {
    &&& q_fits(q_sub(p, mn))
    &&& q_fits(q_div(q_sub(p, mn), sz))
    &&& q_fits(q_sub(q_div(q_sub(p, mn), sz), q_half()))
    &&& q_fits(spec_screen_to_fractal(p, mn, sz, c))
}

/// Everything the executable fractal-to-screen map computes on one axis
/// stays representable.
pub open spec fn spec_f2s_fits(f: Qr, mn: Qr, sz: Qr, c: Qr) -> bool {
    &&& q_fits(q_sub(f, c))
    &&& q_fits(q_add(q_sub(f, c), q_half()))
    &&& q_fits(q_mul(q_add(q_sub(f, c), q_half()), sz))
    &&& q_fits(spec_fractal_to_screen(f, mn, sz, c))
}

/// One axis of the executable screen-to-fractal map.
fn screen_to_fractal_axis(p: Frac, mn: Frac, sz: Frac, c: Frac) -> (r: Option<Frac>)
    requires
        p.wf(),
        mn.wf(),
        sz.wf(),
        c.wf(),
        q_pos(sz@),
    ensures
        r matches Some(f) ==> f.wf() && f@ == spec_screen_to_fractal(p@, mn@, sz@, c@),
        spec_s2f_fits(p@, mn@, sz@, c@) ==> r is Some,
{
    proof {
        lemma_q_pos_num(sz@);
        assert((p@.d * mn@.d) * sz@.n > 0) by (nonlinear_arith)
            requires
                p@.d > 0,
                mn@.d > 0,
                sz@.n > 0,
        ;
    }
    let t1 = match p.sub(mn) {
        Some(v) => v,
        None => { return None; },
    };
    let t2 = match t1.div(sz) {
        Some(v) => v,
        None => { return None; },
    };
    let t3 = match t2.sub(Frac::half()) {
        Some(v) => v,
        None => { return None; },
    };
    t3.add(c)
}

/// One axis of the executable fractal-to-screen map.
fn fractal_to_screen_axis(f: Frac, mn: Frac, sz: Frac, c: Frac) -> (r: Option<Frac>)
    requires
        f.wf(),
        mn.wf(),
        sz.wf(),
        c.wf(),
    ensures
        r matches Some(v) ==> v.wf() && v@ == spec_fractal_to_screen(f@, mn@, sz@, c@),
        spec_f2s_fits(f@, mn@, sz@, c@) ==> r is Some,
{
    let t1 = match f.sub(c) {
        Some(v) => v,
        None => { return None; },
    };
    let t2 = match t1.add(Frac::half()) {
        Some(v) => v,
        None => { return None; },
    };
    let t3 = match t2.mul(sz) {
        Some(v) => v,
        None => { return None; },
    };
    t3.add(mn)
}

/// Map a device-pixel position to its fractal-plane coordinate (before the
/// shader's own division by `zoom`). `None` on overflow of the exact
/// arithmetic; a degenerate viewport is excluded up front.
pub fn screen_to_fractal(pos: Vec2q, vp: &Viewport, center: Vec2q) -> (r: Option<Vec2q>)
    requires
        pos.wf(),
        vp.wf(),
        center.wf(),
        vp.spec_positive_area(),
    ensures
        r matches Some(f) ==> {
            &&& f.wf()
            &&& f.x@ == spec_screen_to_fractal(pos.x@, vp.min.x@, vp.size.x@, center.x@)
            &&& f.y@ == spec_screen_to_fractal(pos.y@, vp.min.y@, vp.size.y@, center.y@)
        },
        spec_s2f_fits(pos.x@, vp.min.x@, vp.size.x@, center.x@) && spec_s2f_fits(
            pos.y@,
            vp.min.y@,
            vp.size.y@,
            center.y@,
        ) ==> r is Some,
{
    let x = match screen_to_fractal_axis(pos.x, vp.min.x, vp.size.x, center.x) {
        Some(v) => v,
        None => { return None; },
    };
    let y = match screen_to_fractal_axis(pos.y, vp.min.y, vp.size.y, center.y) {
        Some(v) => v,
        None => { return None; },
    };
    Some(Vec2q { x, y })
}

/// Map a fractal-plane coordinate back to its device-pixel position; the
/// exact inverse of `screen_to_fractal`.
pub fn fractal_to_screen(f: Vec2q, vp: &Viewport, center: Vec2q) -> (r: Option<Vec2q>)
    requires
        f.wf(),
        vp.wf(),
        center.wf(),
        vp.spec_positive_area(),
    ensures
        r matches Some(v) ==> {
            &&& v.wf()
            &&& v.x@ == spec_fractal_to_screen(f.x@, vp.min.x@, vp.size.x@, center.x@)
            &&& v.y@ == spec_fractal_to_screen(f.y@, vp.min.y@, vp.size.y@, center.y@)
        },
        spec_f2s_fits(f.x@, vp.min.x@, vp.size.x@, center.x@) && spec_f2s_fits(
            f.y@,
            vp.min.y@,
            vp.size.y@,
            center.y@,
        ) ==> r is Some,
{
    let x = match fractal_to_screen_axis(f.x, vp.min.x, vp.size.x, center.x) {
        Some(v) => v,
        None => { return None; },
    };
    let y = match fractal_to_screen_axis(f.y, vp.min.y, vp.size.y, center.y) {
        Some(v) => v,
        None => { return None; },
    };
    Some(Vec2q { x, y })
}

/// Everything the executable pan update computes on one axis stays
/// representable.
pub open spec fn spec_pan_fits(c: Qr, drag: Qr, sz: Qr) -> bool {
    &&& q_fits(q_div(drag, sz))
    &&& q_fits(spec_pan_center(c, drag, sz))
}

/// Pan update: move the center against the drag, the drag measured in
/// device pixels over a positive-area viewport. `None` only on overflow of
/// the exact arithmetic.
pub fn pan_center(center: Vec2q, drag: Vec2q, vp: &Viewport) -> (r: Option<Vec2q>)
    requires
        center.wf(),
        drag.wf(),
        vp.wf(),
        vp.spec_positive_area(),
    ensures
        r matches Some(nc) ==> {
            &&& nc.wf()
            &&& nc.x@ == spec_pan_center(center.x@, drag.x@, vp.size.x@)
            &&& nc.y@ == spec_pan_center(center.y@, drag.y@, vp.size.y@)
        },
        spec_pan_fits(center.x@, drag.x@, vp.size.x@) && spec_pan_fits(
            center.y@,
            drag.y@,
            vp.size.y@,
        ) ==> r is Some,
{
    proof {
        lemma_q_pos_num(vp.size.x@);
        lemma_q_pos_num(vp.size.y@);
        assert(drag.x@.d * vp.size.x@.n > 0) by (nonlinear_arith)
            requires
                drag.x@.d > 0,
                vp.size.x@.n > 0,
        ;
        assert(drag.y@.d * vp.size.y@.n > 0) by (nonlinear_arith)
            requires
                drag.y@.d > 0,
                vp.size.y@.n > 0,
        ;
    }
    let dx = match drag.x.div(vp.size.x) {

        Some(v) => v,
        None => { return None; },
    };
    let dy = match drag.y.div(vp.size.y) {
        Some(v) => v,
        None => { return None; },
    };
    let x = match center.x.sub(dx) {
        Some(v) => v,
        None => { return None; },
    };
    let y = match center.y.sub(dy) {
        Some(v) => v,
        None => { return None; },
    };
    Some(Vec2q { x, y })
}

/// Everything the executable zoom update computes on one axis stays
/// representable.
pub open spec fn spec_zoom_fits(c: Qr, pf: Qr, delta: Qr) -> bool {
    &&& q_fits(q_sub(delta, q_int(1)))
    &&& q_fits(q_mul(pf, q_sub(delta, q_int(1))))
    &&& q_fits(spec_zoom_center(c, pf, delta))
}

/// Zoom-about-pointer update: returns the new center and zoom, `pointer`
/// being the pointer's fractal-space position computed before the update.
/// `None` only on overflow of the exact arithmetic.
pub fn zoom_about_pointer(center: Vec2q, zoom: Frac, delta: Frac, pointer: Vec2q) -> (r: Option<
    (Vec2q, Frac),
>)
    requires
        center.wf(),
        zoom.wf(),
        delta.wf(),
        pointer.wf(),
    ensures
        r matches Some(p) ==> {
            &&& p.0.wf()
            &&& p.1.wf()
            &&& p.1@ == q_mul(zoom@, delta@)
            &&& p.0.x@ == spec_zoom_center(center.x@, pointer.x@, delta@)
            &&& p.0.y@ == spec_zoom_center(center.y@, pointer.y@, delta@)
        },
        q_fits(q_mul(zoom@, delta@)) && spec_zoom_fits(center.x@, pointer.x@, delta@)
            && spec_zoom_fits(center.y@, pointer.y@, delta@) ==> r is Some,
{
    let new_zoom = match zoom.mul(delta) {
        Some(v) => v,
        None => { return None; },
    };
    let dm1 = match delta.sub(Frac::one()) {
        Some(v) => v,
        None => { return None; },
    };
    let mx = match pointer.x.mul(dm1) {
        Some(v) => v,
        None => { return None; },
    };
    let my = match pointer.y.mul(dm1) {
        Some(v) => v,
        None => { return None; },
    };
    let x = match center.x.add(mx) {
        Some(v) => v,
        None => { return None; },
    };
    let y = match center.y.add(my) {
        Some(v) => v,
        None => { return None; },
    };
    Some((Vec2q { x, y }, new_zoom))
}

} // verus!
