//! Reference rasterizer for the model draw target.
//!
//! The real system rasterizes on the GPU; the model target needs pixel
//! content of its own, so this module evaluates the same escape-time and
//! gradient logic the fragment shader encodes, in saturating fixed-point
//! arithmetic (16 fractional bits). Every step has a specification twin,
//! and `render_pixels` returns exactly `spec_frame` of its inputs. A
//! custom, driver-compiled formula cannot be executed here; it is
//! rendered with the default iteration rule.

use vstd::prelude::*;
use crate::frac::{Frac, Qr};
use crate::shader::FormulaKind;
use crate::uniform::UniformData;

verus! {

/// The value is within the saturation range of the fixed-point carrier.
pub open spec fn fx_ok(v: int) -> bool {
    -0x10000000000 <= v <= 0x10000000000
}

pub open spec fn iabs(n: int) -> int {
    if n < 0 {
        -n
    } else {
        n
    }
}

/// Truncating division, the rounding the executable code uses.
pub open spec fn tdiv(n: int, d: int) -> int {
    if (n < 0) == (d < 0) {
        iabs(n) / iabs(d)
    } else {
        -(iabs(n) / iabs(d))
    }
}

pub open spec fn sfx_clamp(v: int) -> int {
    if v > 0x10000000000 {
        0x10000000000
    } else if v < -0x10000000000 {
        -0x10000000000
    } else {
        v
    }
}

pub open spec fn sfx_add(a: int, b: int) -> int {
    sfx_clamp(a + b)
}

pub open spec fn sfx_sub(a: int, b: int) -> int {
    sfx_clamp(a - b)
}

pub open spec fn sfx_mul(a: int, b: int) -> int {
    sfx_clamp(tdiv(a * b, 65536))
}

/// Fixed-point division; a zero divisor saturates to zero.
pub open spec fn sfx_div(a: int, b: int) -> int {
    if b == 0 {
        0
    } else {
        sfx_clamp(tdiv(a * 65536, b))
    }
}

/// A rational projected into the fixed-point carrier, saturating.
pub open spec fn sfx_of(q: Qr) -> int {
    sfx_clamp(tdiv(q.n * 65536, q.d))
}

/// Clamp into the unit interval.
pub open spec fn sfx_unit(x: int) -> int {
    if x < 0 {
        0
    } else if x > 65536 {
        65536
    } else {
        x
    }
}

/// Linear interpolation `a + (b - a) * t`.
pub open spec fn spec_lerp(a: int, b: int, t: int) -> int {
    sfx_add(a, sfx_mul(sfx_sub(b, a), t))
}

/// A unit-interval channel as a byte.
pub open spec fn spec_byte(v: int) -> u8 {
    if v < 0 {
        0u8
    } else {
        let x = tdiv(v * 255, 65536);
        if x > 255 {
            255u8
        } else {
            x as u8
        }
    }
}

/// Hue-saturation-value to red-green-blue bytes, the same sector scheme
/// the shader's gradient lookup uses.
pub open spec fn spec_hsv_rgb(h: int, s: int, v: int) -> (u8, u8, u8) {
    let hc = sfx_unit(h);
    let sc = sfx_unit(s);
    let vc = sfx_unit(v);
    let h6 = hc * 6;
    let sector0 = h6 / 65536;
    let sector = if sector0 > 5 {
        5
    } else {
        sector0
    };
    let f = sfx_unit(h6 - sector * 65536);
    let pp = sfx_mul(vc, 65536 - sc);
    let qq = sfx_mul(vc, 65536 - sfx_mul(f, sc));
    let tt = sfx_mul(vc, 65536 - sfx_mul(65536 - f, sc));
    if sector == 0 {
        (spec_byte(vc), spec_byte(tt), spec_byte(pp))
    } else if sector == 1 {
        (spec_byte(qq), spec_byte(vc), spec_byte(pp))
    } else if sector == 2 {
        (spec_byte(pp), spec_byte(vc), spec_byte(tt))
    } else if sector == 3 {
        (spec_byte(pp), spec_byte(qq), spec_byte(vc))
    } else if sector == 4 {
        (spec_byte(tt), spec_byte(pp), spec_byte(vc))
    } else {
        (spec_byte(vc), spec_byte(pp), spec_byte(qq))
    }
}

/// One step of `z -> z^2 + a` in saturating fixed point.
pub open spec fn spec_step(zx: int, zy: int, ax: int, ay: int) -> (int, int) {
    let zx2 = sfx_mul(zx, zx);
    let zy2 = sfx_mul(zy, zy);
    let xy = sfx_mul(zx, zy);
    (sfx_add(sfx_sub(zx2, zy2), ax), sfx_add(sfx_add(xy, xy), ay))
}

/// The escape iteration: how many steps until the magnitude escapes 2, at
/// most `fuel`.
pub open spec fn spec_escape(zx: int, zy: int, ax: int, ay: int, fuel: nat) -> nat
    decreases fuel,
{
    if fuel == 0 {
        0
    } else if zx * zx + zy * zy > 17179869184 {
        0
    } else {
        let z = spec_step(zx, zy, ax, ay);
        1 + spec_escape(z.0, z.1, ax, ay, (fuel - 1) as nat)
    }
}

/// The per-iteration addend: the Julia constant embedded in the built-in
/// formula text, or the pixel's own coordinate.
pub open spec fn spec_addend(kind: FormulaKind, fx0: int, fy0: int) -> (int, int) {
    if kind is Julia {
        (19661int, -26214int)
    } else {
        (fx0, fy0)
    }
}

/// The color of pixel `idx` (row-major) of a `w * h` frame under the
/// uniform snapshot: recover the fractal coordinate, run the escape loop,
/// interpolate the gradient and convert to bytes.
pub open spec fn spec_pixel(kind: FormulaKind, w: int, h: int, ud: UniformData, idx: int) -> (
    u8,
    u8,
    u8,
) {
    let px = idx % w;
    let py = idx / w;
    let ux = sfx_clamp(tdiv((2 * px + 1) * 32768, w) - 32768);
    let uy = sfx_clamp(tdiv((2 * py + 1) * 32768, h) - 32768);
    let zoom = sfx_of(ud.zoom@);
    let fx0 = sfx_div(sfx_add(ux, sfx_of(ud.center.x@)), zoom);
    let fy0 = sfx_div(sfx_add(uy, sfx_of(ud.center.y@)), zoom);
    let aa = spec_addend(kind, fx0, fy0);
    let n = spec_escape(fx0, fy0, aa.0, aa.1, ud.cycles as nat);
    let t0 = tdiv(n as int * 65536, ud.cycles as int);
    let t = if t0 > 65536 {
        65536
    } else {
        t0
    };
    let hh = spec_lerp(sfx_of(ud.start_color.h@), sfx_of(ud.end_color.h@), t);
    let ss = spec_lerp(sfx_of(ud.start_color.s@), sfx_of(ud.end_color.s@), t);
    let vv = spec_lerp(sfx_of(ud.start_color.v@), sfx_of(ud.end_color.v@), t);
    spec_hsv_rgb(hh, ss, vv)
}

/// The whole rasterized frame: `w * h * 4` bytes, row-major RGBA8, alpha
/// always 255.
pub open spec fn spec_frame(kind: FormulaKind, w: int, h: int, ud: UniformData) -> Seq<u8> {
    Seq::new(
        (w * h * 4) as nat,
        |i: int|
            {
                let p = spec_pixel(kind, w, h, ud, i / 4);
                if i % 4 == 0 {
                    p.0
                } else if i % 4 == 1 {
                    p.1
                } else if i % 4 == 2 {
                    p.2
                } else {
                    255u8
                }
            },
    )
}

/// A product of unit-interval values, rescaled, stays in the unit
/// interval.
proof fn lemma_sfx_mul_unit(a: int, b: int)
    requires
        0 <= a <= 65536,
        0 <= b <= 65536,
    ensures
        0 <= sfx_mul(a, b) <= 65536,
{
    assert(0 <= a * b <= 0x100000000) by (nonlinear_arith)
        requires
            0 <= a <= 65536,
            0 <= b <= 65536,
    ;
    assert(tdiv(a * b, 65536) == (a * b) / 65536);
    assert(0 <= (a * b) / 65536 <= 65536) by (nonlinear_arith)
        requires
            0 <= a * b <= 0x100000000,
    ;
}

/// Bound on a product of two in-range fixed-point values.
proof fn lemma_fx_prod_bound(a: int, b: int) by (nonlinear_arith)
    requires
        -0x10000000000 <= a <= 0x10000000000,
        -0x10000000000 <= b <= 0x10000000000,
    ensures
        -0x100000000000000000000 <= a * b <= 0x100000000000000000000,
{
}

/// Truncating division on `i128`, matching its specification twin.
fn tdiv_i128(n: i128, d: i128) -> (r: i128)
    requires
        d != 0,
        -0x1000000000000000000000000000000 <= n <= 0x1000000000000000000000000000000,
        -0x1000000000000000000000000000000 <= d <= 0x1000000000000000000000000000000,
    ensures
        r == tdiv(n as int, d as int),
{
    let na: i128 = if n < 0 {
        -n
    } else {
        n
    };
    let nd: i128 = if d < 0 {
        -d
    } else {
        d
    };
    let q: i128 = na / nd;
    if (n < 0) == (d < 0) {
        q
    } else {
        -q
    }
}

/// Saturate an intermediate result into the fixed-point range.
fn fx_clamp(v: i128) -> (r: i64)
    ensures
        r == sfx_clamp(v as int),
{
    if v > 0x10000000000i128 {
        0x10000000000
    } else if v < -0x10000000000i128 {
        -0x10000000000
    } else {
        v as i64
    }
}

fn fx_add(a: i64, b: i64) -> (r: i64)
    requires
        fx_ok(a as int),
        fx_ok(b as int),
    ensures
        r == sfx_add(a as int, b as int),
{
    fx_clamp(a as i128 + b as i128)
}

fn fx_sub(a: i64, b: i64) -> (r: i64)
    requires
        fx_ok(a as int),
        fx_ok(b as int),
    ensures
        r == sfx_sub(a as int, b as int),
{
    fx_clamp(a as i128 - b as i128)
}

fn fx_mul(a: i64, b: i64) -> (r: i64)
    requires
        fx_ok(a as int),
        fx_ok(b as int),
    ensures
        r == sfx_mul(a as int, b as int),
{
    proof {
        lemma_fx_prod_bound(a as int, b as int);
    }
    let p: i128 = a as i128 * b as i128;
    fx_clamp(tdiv_i128(p, 65536))
}

/// Fixed-point division; a zero divisor saturates to zero.
fn fx_div(a: i64, b: i64) -> (r: i64)
    requires
        fx_ok(a as int),
        fx_ok(b as int),
    ensures
        r == sfx_div(a as int, b as int),
{
    if b == 0 {
        0
    } else {
        fx_clamp(tdiv_i128(a as i128 * 65536, b as i128))
    }
}

/// A rational projected into the fixed-point carrier, saturating.
fn fx_from_frac(f: &Frac) -> (r: i64)
    requires
        f.wf(),
    ensures
        r == sfx_of(f@),
{
    fx_clamp(tdiv_i128(f.num as i128 * 65536, f.den as i128))
}

/// Clamp into the unit interval.
fn fx_unit(x: i64) -> (r: i64)
    ensures
        r == sfx_unit(x as int),
{
    if x < 0 {
        0
    } else if x > 65536 {
        65536
    } else {
        x
    }
}

/// Linear interpolation `a + (b - a) * t` for `t` in the unit interval.
fn fx_lerp(a: i64, b: i64, t: i64) -> (r: i64)
    requires
        fx_ok(a as int),
        fx_ok(b as int),
        0 <= t <= 65536,
    ensures
        r == spec_lerp(a as int, b as int, t as int),
{
    fx_add(a, fx_mul(fx_sub(b, a), t))
}

/// A unit-interval channel as a byte.
fn fx_byte(v: i64) -> (r: u8)
    requires
        fx_ok(v as int),
    ensures
        r == spec_byte(v as int),
{
    if v < 0 {
        0
    } else {
        let x = v * 255 / 65536;
        if x > 255 {
            255
        } else {
            x as u8
        }
    }
}

/// Hue-saturation-value to red-green-blue bytes.
fn hsv_to_rgb(h: i64, s: i64, v: i64) -> (rgb: (u8, u8, u8))
    requires
        fx_ok(h as int),
        fx_ok(s as int),
        fx_ok(v as int),
    ensures
        rgb == spec_hsv_rgb(h as int, s as int, v as int),
{
    let hc = fx_unit(h);
    let sc = fx_unit(s);
    let vc = fx_unit(v);
    let h6: i64 = hc * 6;
    let mut sector: i64 = h6 / 65536;
    if sector > 5 {
        sector = 5;
    }
    let f = fx_unit(h6 - sector * 65536);
    proof {
        lemma_sfx_mul_unit(f as int, sc as int);
        lemma_sfx_mul_unit(65536 - f as int, sc as int);
    }
    let pp = fx_mul(vc, 65536 - sc);
    let qq = fx_mul(vc, 65536 - fx_mul(f, sc));
    let tt = fx_mul(vc, 65536 - fx_mul(65536 - f, sc));
    if sector == 0 {
        (fx_byte(vc), fx_byte(tt), fx_byte(pp))
    } else if sector == 1 {
        (fx_byte(qq), fx_byte(vc), fx_byte(pp))
    } else if sector == 2 {
        (fx_byte(pp), fx_byte(vc), fx_byte(tt))
    } else if sector == 3 {
        (fx_byte(pp), fx_byte(qq), fx_byte(vc))
    } else if sector == 4 {
        (fx_byte(tt), fx_byte(pp), fx_byte(vc))
    } else {
        (fx_byte(vc), fx_byte(pp), fx_byte(qq))
    }
}

/// Iterate `z -> z^2 + a` from the pixel's coordinate until the magnitude
/// escapes 2 or the budget runs out; the escape iteration drives the
/// color.
#[verifier::loop_isolation(false)]
fn escape_count(cx: i64, cy: i64, ax: i64, ay: i64, cycles: u32) -> (n: u32)
    requires
        fx_ok(cx as int),
        fx_ok(cy as int),
        fx_ok(ax as int),
        fx_ok(ay as int),
    ensures
        n <= cycles,
        n == spec_escape(cx as int, cy as int, ax as int, ay as int, cycles as nat),
{
    let mut zx = cx;
    let mut zy = cy;
    let mut n: u32 = 0;
    while n < cycles
        invariant
            n <= cycles,
            fx_ok(zx as int),
            fx_ok(zy as int),
            spec_escape(cx as int, cy as int, ax as int, ay as int, cycles as nat) == n
                + spec_escape(zx as int, zy as int, ax as int, ay as int, (cycles - n) as nat),
        decreases cycles - n,
    {
        proof {
            lemma_fx_prod_bound(zx as int, zx as int);
            lemma_fx_prod_bound(zy as int, zy as int);
            lemma_fx_prod_bound(zx as int, zy as int);
        }
        let m2: i128 = zx as i128 * zx as i128 + zy as i128 * zy as i128;
        if m2 > 17179869184i128 {
            break;
        }
        let zx2 = fx_mul(zx, zx);
        let zy2 = fx_mul(zy, zy);
        let xy = fx_mul(zx, zy);
        let nx = fx_add(fx_sub(zx2, zy2), ax);
        let ny = fx_add(fx_add(xy, xy), ay);
        proof {
            assert(spec_escape(zx as int, zy as int, ax as int, ay as int, (cycles - n) as nat)
                == 1 + spec_escape(
                nx as int,
                ny as int,
                ax as int,
                ay as int,
                (cycles - n - 1) as nat,
            ));
        }
        zx = nx;
        zy = ny;
        n = n + 1;
    }
    n
}

/// Rasterize one frame: exactly `spec_frame` of the same arguments —
/// `width * height * 4` bytes, row-major RGBA8, every alpha byte 255.
#[verifier::loop_isolation(false)]
#[verifier::rlimit(100)]
pub fn render_pixels(kind: FormulaKind, width: u32, height: u32, ud: &UniformData) -> (r: Vec<u8>)
    requires
        width >= 1,
        height >= 1,
        ud.wf(),
        width as int * height as int * 4 <= usize::MAX,
    ensures
        r@ == spec_frame(kind, width as int, height as int, *ud),
        r@.len() == width as int * height as int * 4,
        forall|i: int| 0 <= i < r@.len() && i % 4 == 3 ==> r@[i] == 255,
{
    let wpx: usize = width as usize;
    let hpx: usize = height as usize;
    proof {
        assert(wpx * hpx * 4 == width as int * height as int * 4) by (nonlinear_arith)
            requires
                wpx == width,
                hpx == height,
        ;
        assert(wpx * hpx <= wpx * hpx * 4) by (nonlinear_arith)
            requires
                wpx >= 1,
                hpx >= 1,
        ;
    }
    let npix: usize = wpx * hpx;
    let zoom_fx = fx_from_frac(&ud.zoom);
    let ccx = fx_from_frac(&ud.center.x);
    let ccy = fx_from_frac(&ud.center.y);
    let sh = fx_from_frac(&ud.start_color.h);
    let ss = fx_from_frac(&ud.start_color.s);
    let sv = fx_from_frac(&ud.start_color.v);
    let eh = fx_from_frac(&ud.end_color.h);
    let es = fx_from_frac(&ud.end_color.s);
    let ev = fx_from_frac(&ud.end_color.v);
    let cycles: u32 = ud.cycles as u32;
    let julia = match kind {
        FormulaKind::Julia => true,
        FormulaKind::Mandelbrot => false,
        FormulaKind::Custom => false,
    };
    let ghost w = width as int;
    let ghost h = height as int;
    let mut out: Vec<u8> = Vec::new();
    let mut idx: usize = 0;
    while idx < npix
        invariant
            idx <= npix,
            out@.len() == 4 * idx,
            forall|i: int| 0 <= i < out@.len() ==> out@[i] == spec_frame(kind, w, h, *ud)[i],
        decreases npix - idx,
    {
        let px = idx % wpx;
        let py = idx / wpx;
        let ux = fx_clamp(tdiv_i128((2 * px as i128 + 1) * 32768, wpx as i128) - 32768);
        let uy = fx_clamp(tdiv_i128((2 * py as i128 + 1) * 32768, hpx as i128) - 32768);
        let fx0 = fx_div(fx_add(ux, ccx), zoom_fx);
        let fy0 = fx_div(fx_add(uy, ccy), zoom_fx);
        let (ax, ay) = if julia {
            (19661i64, -26214i64)
        } else {
            (fx0, fy0)
        };
        let n = escape_count(fx0, fy0, ax, ay, cycles);
        let mut t: i64 = (n as i64) * 65536 / (cycles as i64);
        if t > 65536 {
            t = 65536;
        }
        let hh = fx_lerp(sh, eh, t);
        let cs = fx_lerp(ss, es, t);
        let cv = fx_lerp(sv, ev, t);
        let rgb = hsv_to_rgb(hh, cs, cv);
        proof {
            assert(rgb == spec_pixel(kind, w, h, *ud, idx as int));
            let base = 4 * idx as int;
            assert((base + 0) / 4 == idx as int && (base + 0) % 4 == 0);
            assert((base + 1) / 4 == idx as int && (base + 1) % 4 == 1);
            assert((base + 2) / 4 == idx as int && (base + 2) % 4 == 2);
            assert((base + 3) / 4 == idx as int && (base + 3) % 4 == 3);
        }
        out.push(rgb.0);
        out.push(rgb.1);
        out.push(rgb.2);
        out.push(255);
        idx = idx + 1;
    }
    proof {
        assert(out@ =~= spec_frame(kind, w, h, *ud));
    }
    out
}

} // verus!
